//! Startup parameters of the bridge.

use vstd::prelude::*;

verus! {

/// The parameters the bridge starts with: the port the command server
/// listens on, and a compatibility string that callers pass by
/// convention and that has no runtime effect.
#[derive(Clone, Debug)]
pub struct Arguments {
    /// The port the command server tries first.
    pub port: u32,
    /// The compatibility string; nothing reads it.
    pub action: String,
}

impl Arguments {
    /// Gathers the startup parameters into one value.
    pub fn new(port: u32, action: String) -> (a: Arguments)
        ensures
            a.port == port,
            a.action@ == action@,
    {
        Arguments { port, action }
    }
}

impl Default for Arguments {
    /// The parameters used when none are given: port 33333 and an
    /// empty compatibility string.
    fn default() -> (a: Arguments)
        ensures
            a.port == 33333,
            a.action@ == Seq::<char>::empty(),
    {
        Arguments { port: 33333, action: String::new() }
    }
}

} // verus!
