//! The structured success payload handed back to the caller: for a detached
//! run, the machine-readable URLs, log path, broker address and the fixed
//! hint on how to stop everything; for an interactive run, a plain success
//! marker.

use vstd::prelude::*;

verus! {

use vstd::string::StrSliceExecFns;
use vstd::string::StringExecFns;
use crate::strutil::dec_digits;
use crate::strutil::u16_to_string;

/// A payload value: the payload is flat, so booleans and strings suffice.
#[derive(Debug)]
pub enum JsonVal {
    Bool(bool),
    Str(String),
}

/// The structured result of a successful run, as key/value pairs in a fixed
/// order.
#[derive(Debug)]
pub struct UpOutput {
    pub pairs: Vec<(String, JsonVal)>,
}

/// The fixed hint naming the command that tears a detached deployment down.
pub const KILL_CMD_HINT: &'static str = "wash down";

/// What the payload of a successful detached run holds: success marker,
/// dashboard URL, host log path, the teardown hint, and the broker address.
pub open spec fn detached_payload(
    r: UpOutput,
    host_port: u16,
    log_path: Seq<char>,
    nats_host: Seq<char>,
    nats_port: u16,
) -> bool {
    &&& r.pairs@.len() == 5
    &&& r.pairs@[0].0@ == "success"@ && r.pairs@[0].1 == JsonVal::Bool(true)
    &&& r.pairs@[1].0@ == "wasmcloud_url"@ && (r.pairs@[1].1 matches JsonVal::Str(u) && u@
        == "http://localhost:"@ + dec_digits(host_port as nat))
    &&& r.pairs@[2].0@ == "wasmcloud_log"@ && (r.pairs@[2].1 matches JsonVal::Str(l) && l@
        == log_path)
    &&& r.pairs@[3].0@ == "kill_cmd"@ && (r.pairs@[3].1 matches JsonVal::Str(k) && k@
        == KILL_CMD_HINT@)
    &&& r.pairs@[4].0@ == "nats_url"@ && (r.pairs@[4].1 matches JsonVal::Str(n) && n@ == nats_host
        + ":"@ + dec_digits(nats_port as nat))
}

/// What the payload of a successful interactive run holds: the success
/// marker alone.
pub open spec fn interactive_payload(r: UpOutput) -> bool {
    &&& r.pairs@.len() == 1
    &&& r.pairs@[0].0@ == "success"@ && r.pairs@[0].1 == JsonVal::Bool(true)
}

/// Builds the payload of a successful detached run.
pub fn detached_output(host_port: u16, log_path: &str, nats_host: &str, nats_port: u16) -> (r:
    UpOutput)
    ensures
        detached_payload(r, host_port, log_path@, nats_host@, nats_port),
{
    let mut url = "http://localhost:".to_owned();
    let ps = u16_to_string(host_port);
    url.append(ps.as_str());
    let mut nats_url = nats_host.to_owned();
    nats_url.append(":");
    let ns = u16_to_string(nats_port);
    nats_url.append(ns.as_str());
    let mut pairs: Vec<(String, JsonVal)> = Vec::new();
    pairs.push(("success".to_owned(), JsonVal::Bool(true)));
    pairs.push(("wasmcloud_url".to_owned(), JsonVal::Str(url)));
    pairs.push(("wasmcloud_log".to_owned(), JsonVal::Str(log_path.to_owned())));
    pairs.push(("kill_cmd".to_owned(), JsonVal::Str(KILL_CMD_HINT.to_owned())));
    pairs.push(("nats_url".to_owned(), JsonVal::Str(nats_url)));
    UpOutput { pairs }
}

/// Builds the payload of a successful interactive run.
pub fn interactive_output() -> (r: UpOutput)
    ensures
        interactive_payload(r),
{
    let mut pairs: Vec<(String, JsonVal)> = Vec::new();
    pairs.push(("success".to_owned(), JsonVal::Bool(true)));
    UpOutput { pairs }
}

} // verus!
