//! The process-wide set of remote ports that must never be treated as a
//! valid migration target (well-known reflection and service ports).

use vstd::prelude::*;

verus! {

/// Destination ports that are never accepted as the remote port of a new
/// migration path. Read-only after configuration.
pub struct BlockedPortSet {
    pub ports: Vec<u16>,
}

impl BlockedPortSet {
    /// Whether the port is blocked.
    pub open spec fn spec_contains(&self, port: u16) -> bool {
        self.ports@.contains(port)
    }

    /// A set holding exactly the given ports.
    pub fn new(ports: Vec<u16>) -> (r: BlockedPortSet)
        ensures
            forall|p: u16| r.spec_contains(p) == ports@.contains(p),
    {
        BlockedPortSet { ports }
    }

    /// The default configuration: well-known reserved ports that are common
    /// reflection targets, including the DNS port.
    pub fn default_blocked() -> (r: BlockedPortSet)
        ensures
            r.spec_contains(53u16),
            r.spec_contains(0u16),
            !r.spec_contains(1000u16),
            !r.spec_contains(456u16),
    {
        let ports: Vec<u16> = vec![0u16, 19u16, 53u16, 123u16, 161u16, 1900u16];
        assert(ports@.contains(53u16)) by {
            assert(ports@[2] == 53u16);
        }
        assert(ports@.contains(0u16)) by {
            assert(ports@[0] == 0u16);
        }
        assert(forall|i: int| 0 <= i < ports@.len() ==> ports@[i] != 1000u16);
        assert(forall|i: int| 0 <= i < ports@.len() ==> ports@[i] != 456u16);
        BlockedPortSet { ports }
    }

    /// Whether the port is in the set.
    pub fn contains(&self, port: u16) -> (r: bool)
        ensures
            r == self.spec_contains(port),
    {
        let mut i: usize = 0;
        while i < self.ports.len()
            invariant
                i <= self.ports.len(),
                forall|j: int| 0 <= j < i ==> self.ports@[j] != port,
            decreases self.ports.len() - i,
        {
            if self.ports[i] == port {
                return true;
            }
            i += 1;
        }
        false
    }
}

} // verus!
