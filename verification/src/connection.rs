//! Per-connection migration engine: admission of inbound datagrams,
//! path creation and validation bookkeeping, active-path promotion, the
//! probe-timeout backoff interlock, and event emission.

use vstd::prelude::*;
use crate::addr::{PathIdentity, SocketAddr};
use crate::admission::{decide, AdmissionDecision, ConnectionPhase};
use crate::blocked::BlockedPortSet;
use crate::event::{
    spec_active_path_event, spec_backoff_close_event, spec_count_close_events, spec_drop_event,
    lemma_count_close_push, CloseReason, DropReason, Event, ImmediateReason, MigrationRejection,
};
use crate::path::{Path, PathState, Timestamp};
use crate::table::{PathTable, MAX_TRACKED_PATHS};

verus! {

/// What became of one inbound datagram.
#[derive(Clone, Copy, PartialEq, Eq, Structural, Debug)]
pub enum DatagramOutcome {
    /// The observed addresses matched a tracked path.
    AcceptedExisting { index: usize },
    /// A new path was created for the observed addresses.
    AcceptedNewPath { index: usize },
    /// The datagram was discarded; a drop event was recorded.
    Dropped { reason: DropReason },
    /// The connection is closing or closed; nothing was done.
    Ignored,
}

/// One connection's migration state: phase, tracked paths, blocked ports,
/// emitted events, and whether a probe is currently scheduled.
pub struct Connection {
    pub phase: ConnectionPhase,
    pub table: PathTable,
    pub blocked: BlockedPortSet,
    /// Events appended by the engine and drained by an external observer;
    /// the engine never reads them back.
    pub events: Vec<Event>,
    pub probe_scheduled: bool,
}

/// Saturating addition of a datagram length to a byte counter.
pub open spec fn spec_sat_add(a: u64, b: u64) -> int {
    if a + b <= u64::MAX {
        a + b
    } else {
        u64::MAX as int
    }
}

impl Connection {
    pub open spec fn spec_is_closed(self) -> bool {
        self.phase.spec_is_closed()
    }

    /// No tracked path has a blocked remote port.
    pub open spec fn spec_no_blocked_paths(self) -> bool {
        forall|i: int|
            0 <= i < self.table.paths@.len()
                ==> !self.blocked.spec_contains(self.table.paths@[i].identity.remote.port)
    }

    pub open spec fn spec_wf(self) -> bool {
        &&& self.table.spec_wf()
        &&& self.spec_no_blocked_paths()
        &&& (self.spec_is_closed() ==> !self.probe_scheduled)
        &&& (self.phase is Closed ==> forall|i: int|
            0 <= i < self.table.paths@.len() ==> self.table.paths@[i].state is Abandoned)
    }

    /// The identity of the currently active path.
    pub open spec fn spec_active_identity(self) -> PathIdentity {
        self.table.paths@[self.table.active as int].identity
    }

    /// A fresh connection tracking the single handshake path, which is active.
    pub fn new(local: SocketAddr, remote: SocketAddr, blocked: BlockedPortSet, now: Timestamp) -> (r:
        Connection)
        requires
            !blocked.spec_contains(remote.spec_normalize().port),
        ensures
            r.spec_wf(),
            r.phase is Handshaking,
            r.events@ =~= Seq::<Event>::empty(),
            r.table.paths@.len() == 1,
            r.table.active == 0,
            r.table.paths@[0].identity == PathIdentity::spec_of(local, remote),
            r.table.paths@[0].state is PendingValidation,
            r.table.paths@[0].is_active,
            !r.probe_scheduled,
    {
        let identity = PathIdentity::of(local, remote);
        let initial = Path::new(identity, now, true);
        Connection {
            phase: ConnectionPhase::Handshaking,
            table: PathTable::new(initial),
            blocked,
            events: Vec::new(),
            probe_scheduled: false,
        }
    }

    /// Process one inbound datagram whose observed addresses (after any
    /// interception) are `local` and `remote`, whose length is
    /// `datagram_len`, and whose packets decrypted successfully iff
    /// `authenticated`.
    ///
    /// An existing identity is never a migration: the path's accounting is
    /// refreshed and nothing is dropped. A novel identity goes through the
    /// admission policy; rejection drops the datagram and records a drop
    /// event. Before handshake confirmation an accepted address change
    /// records an address-change event and — authenticated — immediately
    /// validates the path, since cryptographic authentication already proves
    /// peer possession.
    pub fn on_datagram(
        &mut self,
        local: SocketAddr,
        remote: SocketAddr,
        datagram_len: u64,
        authenticated: bool,
        now: Timestamp,
    ) -> (r: DatagramOutcome)
        requires
            old(self).spec_wf(),
        ensures
            final(self).spec_wf(),
            final(self).phase == old(self).phase,
            final(self).blocked == old(self).blocked,
            final(self).probe_scheduled == old(self).probe_scheduled,
            // a closing or closed connection ignores inbound datagrams
            old(self).spec_is_closed() ==> *final(self) == *old(self) && r is Ignored,
            // an existing identity is accepted; nothing is dropped, no event
            !old(self).spec_is_closed() && old(self).table.spec_contains_identity(
                PathIdentity::spec_of(local, remote),
            ) ==> {
                &&& final(self).events@ == old(self).events@
                &&& final(self).table.active == old(self).table.active
                &&& final(self).table.paths@.len() == old(self).table.paths@.len()
                &&& (r matches DatagramOutcome::AcceptedExisting { index } && {
                    let i = index as int;
                    &&& i < old(self).table.paths@.len()
                    &&& old(self).table.paths@[i].identity == PathIdentity::spec_of(local, remote)
                    &&& (forall|j: int|
                        0 <= j < old(self).table.paths@.len() && j != i
                            ==> final(self).table.paths@[j] == old(self).table.paths@[j])
                    &&& final(self).table.paths@[i].identity == old(self).table.paths@[i].identity
                    &&& final(self).table.paths@[i].bytes_received as int == spec_sat_add(
                        old(self).table.paths@[i].bytes_received,
                        datagram_len,
                    )
                    &&& final(self).table.paths@[i].last_activity == now
                    &&& final(self).table.paths@[i].is_active == old(self).table.paths@[i].is_active
                    &&& final(self).table.paths@[i].state == (
                    if old(self).phase is Handshaking && authenticated && (old(self).table.paths@[i].state is PendingValidation || old(self).table.paths@[i].state is Validating) {
                        PathState::Validated
                    } else {
                        old(self).table.paths@[i].state
                    })
                })
            },
            // a blocked remote port never enters the table; the datagram is
            // dropped with a visible event
            !old(self).spec_is_closed() && !old(self).table.spec_contains_identity(
                PathIdentity::spec_of(local, remote),
            ) && old(self).blocked.spec_contains(PathIdentity::spec_of(local, remote).remote.port)
                ==> {
                &&& final(self).table.paths@ =~= old(self).table.paths@
                &&& final(self).table.active == old(self).table.active
                &&& final(self).events@ == old(self).events@.push(
                    spec_drop_event(MigrationRejection::BlockedPort),
                )
                &&& r == (DatagramOutcome::Dropped {
                    reason: DropReason::RejectedConnectionMigration {
                        rejection: MigrationRejection::BlockedPort,
                    },
                })
            },
            // a full table with nothing evictable rejects the new path
            !old(self).spec_is_closed() && !old(self).table.spec_contains_identity(
                PathIdentity::spec_of(local, remote),
            ) && !old(self).blocked.spec_contains(
                PathIdentity::spec_of(local, remote).remote.port,
            ) && old(self).table.paths@.len() == MAX_TRACKED_PATHS && !old(self).table.spec_has_eviction_candidate() ==> {
                &&& final(self).table.paths@ =~= old(self).table.paths@
                &&& final(self).table.active == old(self).table.active
                &&& final(self).events@ == old(self).events@.push(
                    spec_drop_event(MigrationRejection::TableFull),
                )
                &&& r == (DatagramOutcome::Dropped {
                    reason: DropReason::RejectedConnectionMigration {
                        rejection: MigrationRejection::TableFull,
                    },
                })
            },
            // a novel, unblocked identity with room (or something evictable)
            // becomes a tracked path and is never dropped
            !old(self).spec_is_closed() && !old(self).table.spec_contains_identity(
                PathIdentity::spec_of(local, remote),
            ) && !old(self).blocked.spec_contains(
                PathIdentity::spec_of(local, remote).remote.port,
            ) && (old(self).table.paths@.len() < MAX_TRACKED_PATHS || old(self).table.spec_has_eviction_candidate()) ==> {
                &&& (r matches DatagramOutcome::AcceptedNewPath { index } && {
                    let i = index as int;
                    &&& i == final(self).table.paths@.len() - 1
                    &&& final(self).table.paths@[i].identity == PathIdentity::spec_of(local, remote)
                    &&& final(self).table.paths@[i].bytes_received as int == spec_sat_add(
                        0,
                        datagram_len,
                    )
                    &&& final(self).table.paths@[i].last_activity == now
                    &&& !final(self).table.paths@[i].is_active
                    &&& final(self).table.paths@[i].state == (
                    if old(self).phase is Handshaking && authenticated {
                        PathState::Validated
                    } else {
                        PathState::PendingValidation
                    })
                })
                &&& final(self).table.paths@.len() <= MAX_TRACKED_PATHS
                // every other tracked identity was already tracked before
                &&& (forall|j: int|
                    0 <= j < final(self).table.paths@.len() - 1
                        ==> old(self).table.spec_contains_identity(
                        final(self).table.paths@[j].identity,
                    ))
                // the active path itself is untouched
                &&& final(self).table.paths@[final(self).table.active as int] == old(self).table.paths@[old(self).table.active as int]
                // with room, nothing is evicted
                &&& (old(self).table.paths@.len() < MAX_TRACKED_PATHS ==> final(self).table.paths@.len() == old(self).table.paths@.len() + 1 && (forall|j: int|
                    0 <= j < old(self).table.paths@.len()
                        ==> final(self).table.paths@[j] == old(self).table.paths@[j]))
                // before confirmation the address change is visible as an event;
                // after confirmation path creation emits nothing
                &&& final(self).events@ == (if old(self).phase is Handshaking {
                    old(self).events@.push(
                        Event::HandshakeRemoteAddressChangeObserved {
                            addr: PathIdentity::spec_of(local, remote).remote,
                        },
                    )
                } else {
                    old(self).events@
                })
            },
    {
        match self.phase {
            ConnectionPhase::Closing => {
                return DatagramOutcome::Ignored;
            },
            ConnectionPhase::Closed => {
                return DatagramOutcome::Ignored;
            },
            _ => {},
        }
        let identity = PathIdentity::of(local, remote);
        let decision = decide(identity, self.phase, &self.table, &self.blocked);
        match decision {
            AdmissionDecision::AcceptExisting { index } => {
                let is_handshaking = matches!(self.phase, ConnectionPhase::Handshaking);
                let ghost pre_table = self.table;
                let p = &mut self.table.paths[index];
                p.on_bytes_received(datagram_len, now);
                if is_handshaking && authenticated && (matches!(
                    p.state,
                    PathState::PendingValidation,
                ) || matches!(p.state, PathState::Validating)) {
                    p.mark_validated();
                }
                proof {
                    assert(self.table.paths@ =~= pre_table.paths@.update(
                        index as int,
                        self.table.paths@[index as int],
                    ));
                }
                DatagramOutcome::AcceptedExisting { index }
            },
            AdmissionDecision::AcceptNewPath => {
                if self.table.paths.len() == MAX_TRACKED_PATHS {
                    let cand = self.table.find_eviction_candidate();
                    match cand {
                        Some(c) => {
                            self.table.remove_at(c);
                        },
                        None => {
                            proof {
                                assert(false);
                            }
                        },
                    }
                }
                let mut p = Path::new(identity, now, false);
                p.on_bytes_received(datagram_len, now);
                let is_handshaking = matches!(self.phase, ConnectionPhase::Handshaking);
                if is_handshaking && authenticated {
                    p.mark_validated();
                }
                let index = self.table.paths.len();
                self.table.insert_new(p);
                if is_handshaking {
                    self.events.push(
                        Event::HandshakeRemoteAddressChangeObserved { addr: identity.remote },
                    );
                }
                DatagramOutcome::AcceptedNewPath { index }
            },
            AdmissionDecision::Reject { rejection } => {
                self.events.push(
                    Event::DatagramDropped {
                        reason: DropReason::RejectedConnectionMigration { rejection },
                    },
                );
                DatagramOutcome::Dropped {
                    reason: DropReason::RejectedConnectionMigration { rejection },
                }
            },
        }
    }

    /// The handshake completed: from now on every new-path candidate goes
    /// through full validation accounting before it may become active.
    pub fn on_handshake_confirmed(&mut self)
        requires
            old(self).spec_wf(),
            old(self).phase is Handshaking,
        ensures
            final(self).spec_wf(),
            *final(self) == (Connection { phase: ConnectionPhase::HandshakeConfirmed, ..*old(self) }),
    {
        self.phase = ConnectionPhase::HandshakeConfirmed;
    }

    /// A challenge was issued on the still-unvalidated path at `index` (its
    /// first use as a send target).
    pub fn start_path_validation(&mut self, index: usize)
        requires
            old(self).spec_wf(),
            index < old(self).table.paths@.len(),
            old(self).table.paths@[index as int].state is PendingValidation,
        ensures
            final(self).spec_wf(),
            final(self).phase == old(self).phase,
            final(self).events@ == old(self).events@,
            final(self).probe_scheduled == old(self).probe_scheduled,
            final(self).table.active == old(self).table.active,
            final(self).table.paths@ =~= old(self).table.paths@.update(
                index as int,
                Path { state: PathState::Validating, ..old(self).table.paths@[index as int] },
            ),
    {
        let p = &mut self.table.paths[index];
        p.begin_validation();
    }

    /// The peer proved possession of the address of the path at `index`
    /// (a matching challenge response arrived on it).
    pub fn on_path_validated(&mut self, index: usize)
        requires
            old(self).spec_wf(),
            index < old(self).table.paths@.len(),
            old(self).table.paths@[index as int].state is PendingValidation || old(self).table.paths@[index as int].state is Validating,
        ensures
            final(self).spec_wf(),
            final(self).phase == old(self).phase,
            final(self).events@ == old(self).events@,
            final(self).probe_scheduled == old(self).probe_scheduled,
            final(self).table.active == old(self).table.active,
            final(self).table.paths@ =~= old(self).table.paths@.update(
                index as int,
                Path { state: PathState::Validated, ..old(self).table.paths@[index as int] },
            ),
    {
        let p = &mut self.table.paths[index];
        p.mark_validated();
    }

    /// Promote the validated path at `index` to active. The previous active
    /// path is cleared in the same step and exactly one active-path-updated
    /// event is appended, carrying the new path's address pair.
    pub fn promote_path(&mut self, index: usize)
        requires
            old(self).spec_wf(),
            !old(self).spec_is_closed(),
            index < old(self).table.paths@.len(),
            index != old(self).table.active,
            old(self).table.paths@[index as int].state is Validated,
        ensures
            final(self).spec_wf(),
            final(self).phase == old(self).phase,
            final(self).probe_scheduled == old(self).probe_scheduled,
            final(self).table.active == index,
            final(self).table.paths@.len() == old(self).table.paths@.len(),
            final(self).spec_active_identity() == old(self).table.paths@[index as int].identity,
            final(self).events@ == old(self).events@.push(
                spec_active_path_event(
                    old(self).table.paths@[index as int].identity.local,
                    old(self).table.paths@[index as int].identity.remote,
                ),
            ),
            forall|j: int|
                0 <= j < old(self).table.paths@.len()
                    ==> final(self).table.paths@[j].identity == old(self).table.paths@[j].identity
                        && final(self).table.paths@[j].state == old(self).table.paths@[j].state,
    {
        self.table.promote(index);
        let p = &self.table.paths[index];
        let local = p.identity.local;
        let remote = p.identity.remote;
        self.events.push(Event::ActivePathUpdated { new_local: local, new_remote: remote });
    }

    /// Prepare to send `requested` bytes on the active path. The first send
    /// attempt on a still-pending path issues its challenge (it moves to
    /// `Validating`), and while the path is unvalidated the grant is capped
    /// by the anti-amplification bound; the remainder is deferred, never
    /// dropped. A validated path is not limited.
    pub fn grant_send_on_active(&mut self, requested: u64) -> (granted: u64)
        requires
            old(self).spec_wf(),
            !old(self).spec_is_closed(),
        ensures
            final(self).spec_wf(),
            final(self).phase == old(self).phase,
            final(self).events@ == old(self).events@,
            final(self).probe_scheduled == old(self).probe_scheduled,
            final(self).table.active == old(self).table.active,
            ({
                let a = old(self).table.active as int;
                let p = old(self).table.paths@[a];
                if p.state is Validated {
                    &&& granted == requested
                    &&& final(self).table.paths@ =~= old(self).table.paths@
                } else {
                    &&& granted <= requested
                    &&& granted as int <= p.spec_send_allowance()
                    &&& (requested as int <= p.spec_send_allowance() ==> granted == requested)
                    &&& (requested as int > p.spec_send_allowance() ==> granted as int
                        == p.spec_send_allowance())
                    &&& final(self).table.paths@ =~= old(self).table.paths@.update(
                        a,
                        Path {
                            state: if p.state is PendingValidation {
                                PathState::Validating
                            } else {
                                p.state
                            },
                            bytes_sent_unvalidated: (p.bytes_sent_unvalidated + granted) as u64,
                            ..p
                        },
                    )
                }
            }),
    {
        let active = self.table.active;
        let p = &mut self.table.paths[active];
        if matches!(p.state, PathState::Validated) {
            requested
        } else {
            if matches!(p.state, PathState::PendingValidation) {
                p.begin_validation();
            }
            let granted = p.grant_unvalidated_send(requested);
            granted
        }
    }

    /// Acknowledgment of a packet sent after a probe timeout: the backoff
    /// multiplier of the active path resets to one and no probe is pending.
    pub fn on_ack(&mut self)
        requires
            old(self).spec_wf(),
            !old(self).spec_is_closed(),
        ensures
            final(self).spec_wf(),
            final(self).phase == old(self).phase,
            final(self).events@ == old(self).events@,
            !final(self).probe_scheduled,
            final(self).table.active == old(self).table.active,
            final(self).table.paths@ =~= old(self).table.paths@.update(
                old(self).table.active as int,
                Path {
                    pto_backoff_multiplier: 1,
                    ..old(self).table.paths@[old(self).table.active as int]
                },
            ),
    {
        let active = self.table.active;
        let p = &mut self.table.paths[active];
        p.reset_backoff();
        self.probe_scheduled = false;
    }

    /// The relation `on_pto_expiry` establishes between the state before and
    /// after one probe-timeout delivery.
    pub open spec fn spec_pto_step(pre: Connection, post: Connection) -> bool {
        if pre.spec_is_closed() {
            // an in-flight timer event for a closed connection is a no-op
            post == pre
        } else if 2 * pre.table.paths@[pre.table.active as int].pto_backoff_multiplier as int
            > crate::path::PTO_BACKOFF_CEILING as int {
            // the interlock fires: immediate closure, exactly one event,
            // no further probe scheduled
            &&& post.phase is Closed
            &&& post.events@ == pre.events@.push(spec_backoff_close_event())
            &&& !post.probe_scheduled
        } else {
            // the multiplier doubles and the next probe is scheduled
            &&& post.phase == pre.phase
            &&& !post.spec_is_closed()
            &&& post.events@ == pre.events@
            &&& post.probe_scheduled
            &&& post.table.paths@[post.table.active as int].pto_backoff_multiplier as int == 2
                * pre.table.paths@[pre.table.active as int].pto_backoff_multiplier as int
        }
    }

    /// A probe timeout expired without acknowledgment. Before applying the
    /// doubled multiplier the interlock checks the fixed ceiling; if the
    /// result would exceed it, the connection closes immediately with the
    /// fatal diagnostic, and no further probe is scheduled.
    pub fn on_pto_expiry(&mut self) -> (closed_now: bool)
        requires
            old(self).spec_wf(),
        ensures
            final(self).spec_wf(),
            Connection::spec_pto_step(*old(self), *final(self)),
            closed_now == (!old(self).spec_is_closed() && 2 * old(self).table.paths@[old(self).table.active as int].pto_backoff_multiplier as int
                > crate::path::PTO_BACKOFF_CEILING as int),
    {
        match self.phase {
            ConnectionPhase::Closing => {
                return false;
            },
            ConnectionPhase::Closed => {
                return false;
            },
            _ => {},
        }
        let active = self.table.active;
        if self.table.paths[active].backoff_would_exceed() {
            self.abandon_all_paths();
            self.phase = ConnectionPhase::Closed;
            self.probe_scheduled = false;
            self.events.push(
                Event::ConnectionClosed {
                    reason: CloseReason::ImmediateClose {
                        reason: ImmediateReason::PtoBackoffExceeded,
                    },
                },
            );
            true
        } else {
            let p = &mut self.table.paths[active];
            p.double_backoff();
            self.probe_scheduled = true;
            false
        }
    }

    /// Validation of the still-unvalidated path at `index` timed out: the
    /// path is abandoned in place (and may be evicted later). Only non-active
    /// paths await validation once a path has been promoted, so the active
    /// path is not a timeout subject.
    pub fn on_validation_timeout(&mut self, index: usize)
        requires
            old(self).spec_wf(),
            !old(self).spec_is_closed(),
            index < old(self).table.paths@.len(),
            index != old(self).table.active,
            old(self).table.paths@[index as int].state is PendingValidation || old(
                self,
            ).table.paths@[index as int].state is Validating,
        ensures
            final(self).spec_wf(),
            final(self).phase == old(self).phase,
            final(self).events@ == old(self).events@,
            final(self).probe_scheduled == old(self).probe_scheduled,
            final(self).table.active == old(self).table.active,
            final(self).table.paths@ =~= old(self).table.paths@.update(
                index as int,
                Path { state: PathState::Abandoned, ..old(self).table.paths@[index as int] },
            ),
    {
        let p = &mut self.table.paths[index];
        p.abandon();
    }

    /// Mark every tracked path abandoned (connection teardown).
    fn abandon_all_paths(&mut self)
        requires
            old(self).spec_wf(),
        ensures
            final(self).table.spec_wf(),
            final(self).table.paths@.len() == old(self).table.paths@.len(),
            final(self).table.active == old(self).table.active,
            forall|i: int|
                0 <= i < old(self).table.paths@.len() ==> final(self).table.paths@[i] == (Path {
                    state: PathState::Abandoned,
                    ..old(self).table.paths@[i]
                }),
            final(self).spec_no_blocked_paths(),
            final(self).phase == old(self).phase,
            final(self).blocked == old(self).blocked,
            final(self).events@ == old(self).events@,
            final(self).probe_scheduled == old(self).probe_scheduled,
    {
        let n = self.table.paths.len();
        let mut i: usize = 0;
        while i < n
            invariant
                old(self).spec_wf(),
                n == old(self).table.paths@.len(),
                i <= n,
                self.table.paths@.len() == n,
                self.table.active == old(self).table.active,
                self.phase == old(self).phase,
                self.blocked == old(self).blocked,
                self.events@ == old(self).events@,
                self.probe_scheduled == old(self).probe_scheduled,
                forall|j: int|
                    0 <= j < i ==> self.table.paths@[j] == (Path {
                        state: PathState::Abandoned,
                        ..old(self).table.paths@[j]
                    }),
                forall|j: int| i <= j < n ==> self.table.paths@[j] == old(self).table.paths@[j],
            decreases n - i,
        {
            let p = &mut self.table.paths[i];
            p.abandon();
            i += 1;
        }
        proof {
            assert forall|j: int| 0 <= j < n implies self.table.paths@[j].spec_wf() by {
                assert(old(self).table.paths@[j].spec_wf());
            }
        }
    }

    /// Close the connection: every path is abandoned and no further events
    /// are emitted by this subsystem.
    pub fn close(&mut self)
        requires
            old(self).spec_wf(),
        ensures
            final(self).spec_wf(),
            final(self).phase is Closed,
            final(self).events@ == old(self).events@,
            !final(self).probe_scheduled,
            forall|i: int|
                0 <= i < final(self).table.paths@.len()
                    ==> final(self).table.paths@[i].state is Abandoned,
    {
        self.abandon_all_paths();
        self.phase = ConnectionPhase::Closed;
        self.probe_scheduled = false;
    }

    /// The events emitted so far, in order.
    pub fn events(&self) -> (r: &Vec<Event>)
        ensures
            r@ == self.events@,
    {
        &self.events
    }

    /// Hand the emitted events to the observer and clear the log.
    pub fn drain_events(&mut self) -> (r: Vec<Event>)
        requires
            old(self).spec_wf(),
        ensures
            final(self).spec_wf(),
            r@ == old(self).events@,
            final(self).events@ =~= Seq::<Event>::empty(),
            final(self).phase == old(self).phase,
            final(self).table == old(self).table,
            final(self).probe_scheduled == old(self).probe_scheduled,
    {
        let drained = self.events.split_off(0);
        drained
    }
}

/// Across any run of probe-timeout deliveries from an open state with no
/// closure recorded yet, the connection-closed event is appended exactly once
/// if the run ends closed and never otherwise; once closed, no probe is
/// scheduled.
pub proof fn lemma_pto_close_exactly_once(states: Seq<Connection>)
    requires
        states.len() >= 1,
        forall|k: int|
            0 <= k < states.len() - 1 ==> Connection::spec_pto_step(#[trigger] states[k], states[k + 1]),
        !states[0].spec_is_closed(),
        states[0].spec_wf(),
        spec_count_close_events(states[0].events@) == 0,
    ensures
        spec_count_close_events(states.last().events@) == (
        if states.last().spec_is_closed() {
            1nat
        } else {
            0nat
        }),
    decreases states.len(),
{
    if states.len() == 1 {
    } else {
        let n = states.len() - 1;
        assert forall|k: int| 0 <= k < n - 1 implies Connection::spec_pto_step(
            #[trigger] states.take(n)[k],
            states.take(n)[k + 1],
        ) by {
            assert(states.take(n)[k] == states[k]);
            assert(states.take(n)[k + 1] == states[k + 1]);
            assert(Connection::spec_pto_step(states[k], states[k + 1]));
        }
        assert(states.take(n)[0] == states[0]);
        lemma_pto_close_exactly_once(states.take(n));
        assert(states.take(n).last() == states[n - 1]);
        assert(Connection::spec_pto_step(states[n - 1], states[n]));
        let pre = states[n - 1];
        let post = states[n];
        if pre.spec_is_closed() {
            assert(post == pre);
        } else if 2 * pre.table.paths@[pre.table.active as int].pto_backoff_multiplier as int
            > crate::path::PTO_BACKOFF_CEILING as int {
            lemma_count_close_push(pre.events@, spec_backoff_close_event());
        } else {
        }
    }
}

} // verus!
