//! One tracked network path: validation lifecycle, anti-amplification
//! accounting, and the probe-timeout backoff multiplier.

use vstd::prelude::*;
use crate::addr::PathIdentity;

verus! {

/// Milliseconds (or any monotone tick) supplied by the caller's timer facility.
pub type Timestamp = u64;

/// While a path is not validated, at most this many bytes may be sent on it
/// for every byte received on it.
pub const ANTI_AMPLIFICATION_MULTIPLIER: u64 = 3;

/// Fixed ceiling of the probe-timeout backoff multiplier. Doubling past this
/// value closes the connection instead of saturating silently.
pub const PTO_BACKOFF_CEILING: u32 = 0xffff_ffff;

/// Validation lifecycle of a path.
#[derive(Clone, Copy, PartialEq, Eq, Structural, Debug)]
pub enum PathState {
    /// Created on first datagram; no challenge issued yet.
    PendingValidation,
    /// A challenge was issued; waiting for proof of peer possession.
    Validating,
    /// The peer proved possession of the address; terminal for productive use.
    Validated,
    /// Validation timed out or the connection is closing.
    Abandoned,
}

/// One tracked network path of a connection.
#[derive(Clone, Copy, PartialEq, Eq, Structural, Debug)]
pub struct Path {
    /// Immutable for the path's lifetime.
    pub identity: PathIdentity,
    pub state: PathState,
    /// Exactly one path per connection is active at any time.
    pub is_active: bool,
    pub bytes_received: u64,
    pub bytes_sent_unvalidated: u64,
    /// Doubles on consecutive unacknowledged probe timeouts; reset to 1 on
    /// acknowledgment; never grown past `PTO_BACKOFF_CEILING`.
    pub pto_backoff_multiplier: u32,
    pub last_activity: Timestamp,
}

impl Path {
    /// The anti-amplification bound: unvalidated sends never exceed the fixed
    /// multiple of what was received on this path.
    pub open spec fn spec_amplification_ok(self) -> bool {
        self.bytes_sent_unvalidated as int
            <= ANTI_AMPLIFICATION_MULTIPLIER as int * self.bytes_received as int
    }

    pub open spec fn spec_wf(self) -> bool {
        &&& self.identity.spec_wf()
        &&& self.pto_backoff_multiplier >= 1
        &&& self.spec_amplification_ok()
    }

    /// A freshly created path, pending validation, with empty accounting.
    pub fn new(identity: PathIdentity, now: Timestamp, is_active: bool) -> (r: Path)
        requires
            identity.spec_wf(),
        ensures
            r == (Path {
                identity,
                state: PathState::PendingValidation,
                is_active,
                bytes_received: 0,
                bytes_sent_unvalidated: 0,
                pto_backoff_multiplier: 1,
                last_activity: now,
            }),
            r.spec_wf(),
    {
        Path {
            identity,
            state: PathState::PendingValidation,
            is_active,
            bytes_received: 0,
            bytes_sent_unvalidated: 0,
            pto_backoff_multiplier: 1,
            last_activity: now,
        }
    }

    /// Account bytes received on this path and refresh its activity time.
    /// The counter saturates at the machine limit.
    pub fn on_bytes_received(&mut self, amount: u64, now: Timestamp)
        requires
            old(self).spec_wf(),
        ensures
            final(self).spec_wf(),
            final(self).bytes_received as int
                == if old(self).bytes_received + amount <= u64::MAX {
                    old(self).bytes_received + amount
                } else {
                    u64::MAX as int
                },
            final(self).last_activity == now,
            *final(self) == (Path {
                bytes_received: final(self).bytes_received,
                last_activity: now,
                ..*old(self)
            }),
    {
        if amount > u64::MAX - self.bytes_received {
            self.bytes_received = u64::MAX;
        } else {
            self.bytes_received = self.bytes_received + amount;
        }
        self.last_activity = now;
    }

    /// How many more bytes may be sent on this path while it is unvalidated,
    /// bounded by the machine limit of the send counter.
    pub open spec fn spec_send_allowance(self) -> int {
        if ANTI_AMPLIFICATION_MULTIPLIER as int * self.bytes_received as int <= u64::MAX as int {
            ANTI_AMPLIFICATION_MULTIPLIER as int * self.bytes_received as int
                - self.bytes_sent_unvalidated as int
        } else {
            u64::MAX as int - self.bytes_sent_unvalidated as int
        }
    }

    /// Grant as much of a requested unvalidated send as the anti-amplification
    /// bound allows; the remainder is deferred, never dropped. Returns the
    /// number of bytes that may be sent now.
    pub fn grant_unvalidated_send(&mut self, requested: u64) -> (granted: u64)
        requires
            old(self).spec_wf(),
            !(old(self).state is Validated),
        ensures
            final(self).spec_wf(),
            granted <= requested,
            granted as int <= old(self).spec_send_allowance(),
            requested as int <= old(self).spec_send_allowance() ==> granted == requested,
            requested as int > old(self).spec_send_allowance()
                ==> granted as int == old(self).spec_send_allowance(),
            *final(self) == (Path {
                bytes_sent_unvalidated: final(self).bytes_sent_unvalidated,
                ..*old(self)
            }),
            final(self).bytes_sent_unvalidated == old(self).bytes_sent_unvalidated + granted,
            !(final(self).state is Validated) ==> final(self).spec_amplification_ok(),
    {
        let limit: u64 = if self.bytes_received > u64::MAX / ANTI_AMPLIFICATION_MULTIPLIER {
            u64::MAX
        } else {
            ANTI_AMPLIFICATION_MULTIPLIER * self.bytes_received
        };
        let available: u64 = limit - self.bytes_sent_unvalidated;
        let granted: u64 = if requested < available {
            requested
        } else {
            available
        };
        self.bytes_sent_unvalidated = self.bytes_sent_unvalidated + granted;
        granted
    }

    /// Whether doubling the backoff multiplier would exceed the fixed ceiling.
    pub open spec fn spec_backoff_would_exceed(self) -> bool {
        2 * self.pto_backoff_multiplier as int > PTO_BACKOFF_CEILING as int
    }

    /// The comparison itself cannot overflow: it divides the ceiling instead
    /// of doubling the multiplier.
    pub fn backoff_would_exceed(&self) -> (r: bool)
        ensures
            r == self.spec_backoff_would_exceed(),
    {
        self.pto_backoff_multiplier > PTO_BACKOFF_CEILING / 2
    }

    /// Double the backoff multiplier after an unacknowledged probe timeout.
    pub fn double_backoff(&mut self)
        requires
            old(self).spec_wf(),
            !old(self).spec_backoff_would_exceed(),
        ensures
            final(self).spec_wf(),
            final(self).pto_backoff_multiplier as int == 2 * old(self).pto_backoff_multiplier as int,
            *final(self) == (Path {
                pto_backoff_multiplier: final(self).pto_backoff_multiplier,
                ..*old(self)
            }),
    {
        self.pto_backoff_multiplier = 2 * self.pto_backoff_multiplier;
    }

    /// Reset the backoff multiplier on acknowledgment of a packet sent after
    /// the timeout.
    pub fn reset_backoff(&mut self)
        requires
            old(self).spec_wf(),
        ensures
            final(self).spec_wf(),
            *final(self) == (Path { pto_backoff_multiplier: 1, ..*old(self) }),
    {
        self.pto_backoff_multiplier = 1;
    }

    /// A challenge was issued on this still-unvalidated path.
    pub fn begin_validation(&mut self)
        requires
            old(self).spec_wf(),
            old(self).state is PendingValidation,
        ensures
            final(self).spec_wf(),
            *final(self) == (Path { state: PathState::Validating, ..*old(self) }),
    {
        self.state = PathState::Validating;
    }

    /// The peer proved possession of this path's address.
    pub fn mark_validated(&mut self)
        requires
            old(self).spec_wf(),
            old(self).state is PendingValidation || old(self).state is Validating,
        ensures
            final(self).spec_wf(),
            *final(self) == (Path { state: PathState::Validated, ..*old(self) }),
    {
        self.state = PathState::Validated;
    }

    /// Validation timed out, or the connection is closing.
    pub fn abandon(&mut self)
        requires
            old(self).spec_wf(),
        ensures
            final(self).spec_wf(),
            *final(self) == (Path { state: PathState::Abandoned, ..*old(self) }),
    {
        self.state = PathState::Abandoned;
    }
}

/// Anti-amplification law: on a well-formed path the unvalidated send count
/// never exceeds three times the received count, whatever the ordering of
/// sends and receives that produced the path.
pub proof fn lemma_anti_amplification_bound(p: Path)
    requires
        p.spec_wf(),
    ensures
        p.bytes_sent_unvalidated as int
            <= ANTI_AMPLIFICATION_MULTIPLIER as int * p.bytes_received as int,
{
}

} // verus!
