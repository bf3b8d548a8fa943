//! The migration admission policy: a pure decision over the observed path
//! identity, the connection phase, the path table and the blocked-port set.
//!
//! Evaluated in order: an existing identity is accepted as the same path; a
//! blocked remote port is rejected; a full table with nothing evictable is
//! rejected; everything else is accepted as a new path.

use vstd::prelude::*;
use crate::addr::PathIdentity;
use crate::blocked::BlockedPortSet;
use crate::event::MigrationRejection;
use crate::table::{PathTable, MAX_TRACKED_PATHS};

verus! {

/// The phase of the connection; admission behaves differently by phase only
/// in how an accepted path is accounted, never in the decision order.
#[derive(Clone, Copy, PartialEq, Eq, Structural, Debug)]
pub enum ConnectionPhase {
    Handshaking,
    HandshakeConfirmed,
    Closing,
    Closed,
}

impl ConnectionPhase {
    pub open spec fn spec_is_closed(self) -> bool {
        self is Closing || self is Closed
    }
}

/// The decision of the admission policy for one inbound datagram.
#[derive(Clone, Copy, PartialEq, Eq, Structural, Debug)]
pub enum AdmissionDecision {
    /// The identity matches a tracked path: not a migration.
    AcceptExisting { index: usize },
    /// A novel identity that may be tracked as a new path.
    AcceptNewPath,
    /// The datagram must be dropped; no path is created.
    Reject { rejection: MigrationRejection },
}

/// Decide what to do with a datagram observed on `identity`.
///
/// The phase is part of the policy's input surface; the decision itself is
/// identical in every phase (the phase governs validation accounting of an
/// accepted path, which the caller applies).
pub fn decide(
    identity: PathIdentity,
    phase: ConnectionPhase,
    table: &PathTable,
    blocked: &BlockedPortSet,
) -> (d: AdmissionDecision)
    requires
        table.spec_wf(),
    ensures
        (d is AcceptExisting) == table.spec_contains_identity(identity),
        (d matches AdmissionDecision::AcceptExisting { index }
            ==> index < table.paths@.len()
                && table.paths@[index as int].identity == identity),
        !table.spec_contains_identity(identity) && blocked.spec_contains(identity.remote.port)
            ==> d == (AdmissionDecision::Reject { rejection: MigrationRejection::BlockedPort }),
        !table.spec_contains_identity(identity) && !blocked.spec_contains(identity.remote.port)
            && table.paths@.len() == MAX_TRACKED_PATHS && !table.spec_has_eviction_candidate()
            ==> d == (AdmissionDecision::Reject { rejection: MigrationRejection::TableFull }),
        !table.spec_contains_identity(identity) && !blocked.spec_contains(identity.remote.port)
            && (table.paths@.len() < MAX_TRACKED_PATHS || table.spec_has_eviction_candidate())
            ==> d == AdmissionDecision::AcceptNewPath,
{
    let _ = phase;
    match table.lookup(identity) {
        Some(i) => AdmissionDecision::AcceptExisting { index: i },
        None => {
            if blocked.contains(identity.remote.port) {
                AdmissionDecision::Reject { rejection: MigrationRejection::BlockedPort }
            } else if table.paths.len() == MAX_TRACKED_PATHS {
                match table.find_eviction_candidate() {
                    Some(_) => AdmissionDecision::AcceptNewPath,
                    None => AdmissionDecision::Reject {
                        rejection: MigrationRejection::TableFull,
                    },
                }
            } else {
                AdmissionDecision::AcceptNewPath
            }
        },
    }
}

} // verus!
