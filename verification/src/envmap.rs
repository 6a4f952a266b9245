//! The environment handed to a launched process: an order-irrelevant mapping
//! from variable name to value, accepted opaquely and passed through
//! unmodified. The engine itself reads exactly one entry of it: the
//! dashboard port the host will try to bind, for the pre-flight probe.

use vstd::prelude::*;

verus! {

use vstd::string::StrSliceExecFns;
use vstd::string::StringExecFns;

/// An environment map as a list of `name = value` entries. Later entries
/// shadow earlier ones with the same name, which makes insertion cheap and
/// lookup deterministic.
#[derive(Clone, Debug)]
pub struct EnvMap {
    pub entries: Vec<(String, String)>,
}

/// The value bound to `key`, honouring shadowing (the last binding wins).
pub open spec fn env_lookup(entries: Seq<(String, String)>, key: Seq<char>) -> Option<Seq<char>>
    decreases entries.len(),
{
    if entries.len() == 0 {
        None
    } else if entries.last().0@ == key {
        Some(entries.last().1@)
    } else {
        env_lookup(entries.drop_last(), key)
    }
}

impl EnvMap {
    /// An empty environment.
    pub fn new() -> (r: EnvMap)
        ensures
            r.entries@.len() == 0,
    {
        EnvMap { entries: Vec::new() }
    }

    /// Binds `key` to `value`, shadowing any earlier binding.
    pub fn insert(&mut self, key: String, value: String)
        ensures
            final(self).entries@ == old(self).entries@.push((key, value)),
    {
        self.entries.push((key, value));
    }

    /// Looks `key` up.
    pub fn get(&self, key: &str) -> (r: Option<&String>)
        ensures
            match r {
                Some(v) => env_lookup(self.entries@, key@) == Some(v@),
                None => env_lookup(self.entries@, key@) is None,
            },
    {
        let n = self.entries.len();
        let mut i: usize = n;
        proof {
            assert(self.entries@.take(n as int) =~= self.entries@);
        }
        while i > 0
            invariant
                0 <= i <= n,
                n == self.entries@.len(),
                env_lookup(self.entries@, key@) == env_lookup(self.entries@.take(i as int), key@),
            decreases i,
        {
            proof {
                assert(self.entries@.take(i as int).drop_last() =~= self.entries@.take(i - 1));
                assert(self.entries@.take(i as int).last() == self.entries@[i - 1]);
            }
            if crate::strutil::str_eq(self.entries[i - 1].0.as_str(), key) {
                return Some(&self.entries[i - 1].1);
            }
            i = i - 1;
        }
        proof {
            assert(self.entries@.take(0) =~= Seq::<(String, String)>::empty());
        }
        None
    }
}

/// The port entry the host will bind its dashboard to, as launched
/// processes receive it.
pub const DASHBOARD_PORT_VAR: &'static str = "WASMCLOUD_DASHBOARD_PORT";

/// The dashboard port named in an environment, as a string, or the stock
/// default where the environment does not set one.
pub open spec fn dashboard_port_entry(entries: Seq<(String, String)>) -> Seq<char> {
    match env_lookup(entries, DASHBOARD_PORT_VAR@) {
        Some(v) => v,
        None => "4000"@,
    }
}

/// The loopback address the host's dashboard is expected on, read from the
/// launch environment: probed before a launch (a listener there means the
/// port is taken) and polled after one (a listener there means readiness).
pub fn dashboard_address(env: &EnvMap) -> (r: String)
    ensures
        r@ == "localhost:"@ + dashboard_port_entry(env.entries@),
{
    let mut out = "localhost:".to_owned();
    match env.get(DASHBOARD_PORT_VAR) {
        Some(v) => {
            out.append(v.as_str());
        },
        None => {
            out.append("4000");
        },
    }
    out
}

/// The error reported when the pre-flight probe of the launch environment's
/// dashboard address finds a listener: the host could not bind that port,
/// so it is never spawned.
pub fn already_listening_message(env: &EnvMap) -> (r: String)
    ensures
        r@ == "Could not start wasmCloud, a process is already listening on localhost:"@
            + dashboard_port_entry(env.entries@),
{
    let mut out = "Could not start wasmCloud, a process is already listening on localhost:"
        .to_owned();
    match env.get(DASHBOARD_PORT_VAR) {
        Some(v) => {
            out.append(v.as_str());
        },
        None => {
            out.append("4000");
        },
    }
    out
}

} // verus!
