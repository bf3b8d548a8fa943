//! Events the engine surfaces to its observers.
//!
//! No rejection in this subsystem is silently swallowed: every dropped
//! datagram, active-path change, pre-confirmation address change and
//! connection closure is recorded as an event. The engine only appends
//! events; an external observer drains them.

use vstd::prelude::*;
use crate::addr::SocketAddr;

verus! {

/// Why a migration candidate was rejected by the admission policy.
#[derive(Clone, Copy, PartialEq, Eq, Structural, Debug)]
pub enum MigrationRejection {
    /// The candidate's remote port is in the blocked-port set.
    BlockedPort,
    /// The path table is full and no entry is eligible for eviction.
    TableFull,
}

/// Why a datagram was dropped.
#[derive(Clone, Copy, PartialEq, Eq, Structural, Debug)]
pub enum DropReason {
    /// The datagram would have created a rejected migration path.
    RejectedConnectionMigration { rejection: MigrationRejection },
}

/// Why a connection was closed by this subsystem.
#[derive(Clone, Copy, PartialEq, Eq, Structural, Debug)]
pub enum CloseReason {
    /// Immediate, non-retryable closure with a literal diagnostic reason.
    ImmediateClose { reason: ImmediateReason },
}

/// The literal diagnostic carried by an immediate closure.
#[derive(Clone, Copy, PartialEq, Eq, Structural, Debug)]
pub enum ImmediateReason {
    /// The probe-timeout backoff multiplier would exceed its fixed ceiling.
    PtoBackoffExceeded,
}

impl ImmediateReason {
    /// The diagnostic text of the reason.
    pub fn message(&self) -> (r: &'static str)
        ensures
            *self == ImmediateReason::PtoBackoffExceeded
                ==> r@ == "PTO backoff multiplier exceeded maximum value"@,
    {
        match self {
            ImmediateReason::PtoBackoffExceeded => "PTO backoff multiplier exceeded maximum value",
        }
    }
}

/// One observable event emitted by the engine.
#[allow(inconsistent_fields)]
#[derive(Clone, Copy, PartialEq, Eq, Structural, Debug)]
pub enum Event {
    /// An inbound datagram was discarded; the connection continues.
    DatagramDropped { reason: DropReason },
    /// A validated path was promoted to active.
    ActivePathUpdated { new_local: SocketAddr, new_remote: SocketAddr },
    /// An address change was observed before handshake confirmation.
    HandshakeRemoteAddressChangeObserved { addr: SocketAddr },
    /// The connection transitioned to its closed state.
    ConnectionClosed { reason: CloseReason },
}

/// The event recording that a datagram was dropped as a rejected migration.
pub open spec fn spec_drop_event(rejection: MigrationRejection) -> Event {
    Event::DatagramDropped {
        reason: DropReason::RejectedConnectionMigration { rejection },
    }
}

/// The event recording a promotion of the path with the given address pair.
pub open spec fn spec_active_path_event(local: SocketAddr, remote: SocketAddr) -> Event {
    Event::ActivePathUpdated { new_local: local, new_remote: remote }
}

/// The event recording the backoff-interlock closure.
pub open spec fn spec_backoff_close_event() -> Event {
    Event::ConnectionClosed {
        reason: CloseReason::ImmediateClose { reason: ImmediateReason::PtoBackoffExceeded },
    }
}

/// How many connection-closure events a sequence of events holds.
pub open spec fn spec_count_close_events(events: Seq<Event>) -> nat
    decreases events.len(),
{
    if events.len() == 0 {
        0
    } else {
        spec_count_close_events(events.drop_last())
            + (if events.last() is ConnectionClosed { 1nat } else { 0nat })
    }
}

/// Appending a non-closure event keeps the closure count; appending a
/// closure event raises it by one.
pub proof fn lemma_count_close_push(events: Seq<Event>, e: Event)
    ensures
        spec_count_close_events(events.push(e))
            == spec_count_close_events(events) + (if e is ConnectionClosed { 1nat } else { 0nat }),
{
    assert(events.push(e).drop_last() =~= events);
}

} // verus!
