//! The provisioning-and-orchestration engine of a local multi-process
//! runtime environment: a messaging broker, an optional application
//! deployment manager and an actor-host runtime, brought up in order from
//! version-pinned binary releases and torn down cleanly on failure.
//!
//! All policy lives here, verified: the version floor, the release URL and
//! on-disk layout, the option merge, the port probe, the provisioning
//! steps, the six-stage startup sequence with its rollback and
//! degraded-mode rules, and the interactive session's cancellation
//! semantics. The surrounding binary only performs the probes, downloads,
//! spawns and waits that the state machines here ask for, and feeds each
//! outcome back as the next event.

pub mod strutil;
pub mod version;
pub mod release;
pub mod paths;
pub mod errors;
pub mod ports;
pub mod config;
pub mod envmap;
pub mod provision;
pub mod interactive;
pub mod output;
pub mod orchestrate;
