use vstd::prelude::*;

verus! {

/// The independent conditions of a connection.
#[derive(Copy, Clone, Debug, PartialEq, Eq, Hash, Structural)]
pub struct Flags {
    /// At least one message has been decoded.
    pub started: bool,
    /// The connection may serve another request after the current one.
    pub keepalive: bool,
    /// Shutdown has begun.
    pub shutdown: bool,
    /// No more input is read or decoded.
    pub read_disconnect: bool,
    /// No more output is written.
    pub write_disconnect: bool,
    /// The stream has been handed to the upgrade handler.
    pub upgrade: bool,
}

impl Flags {
    /// No condition holds.
    pub open spec fn spec_empty() -> Flags {
        Flags {
            started: false,
            keepalive: false,
            shutdown: false,
            read_disconnect: false,
            write_disconnect: false,
            upgrade: false,
        }
    }

    /// The flags of a fresh connection: nothing but, possibly, keep-alive.
    #[verifier::when_used_as_spec(spec_empty)]
    pub fn empty() -> (f: Flags)
        ensures
            f == Flags::spec_empty(),
    {
        Flags {
            started: false,
            keepalive: false,
            shutdown: false,
            read_disconnect: false,
            write_disconnect: false,
            upgrade: false,
        }
    }

    /// Whether `later` keeps every condition of `self` that is never undone:
    /// both closed sides, shutdown, and the upgrade.
    pub open spec fn leads_to(self, later: Flags) -> bool {
        &&& self.read_disconnect ==> later.read_disconnect
        &&& self.write_disconnect ==> later.write_disconnect
        &&& self.shutdown ==> later.shutdown
        &&& self.upgrade ==> later.upgrade
        &&& self.started ==> later.started
    }
}

} // verus!
