//! Laws relating the engine's operations across whole runs.

use vstd::prelude::*;
use crate::addr::{lemma_identity_ignores_ipv4_mapping, PathIdentity, SocketAddr};
use crate::connection::Connection;
use crate::event::{spec_active_path_event, Event};

verus! {

/// The active-path-updated events a sequence of rebind identities gives rise to.
pub open spec fn spec_rebind_events(rebinds: Seq<PathIdentity>) -> Seq<Event> {
    rebinds.map(|k: int, id: PathIdentity| spec_active_path_event(id.local, id.remote))
}

/// Law: one accepted post-confirmation rebind appends exactly one
/// active-path-updated event. `on_datagram` on a novel accepted identity
/// leaves the event log unchanged, `on_path_validated` leaves it unchanged,
/// and `promote_path` appends exactly the event carrying the new path's
/// address pair; so across a run of such rebinds the appended suffix equals
/// the rebind sequence in order. `logs[k]` is the event log before the
/// `k`-th rebind; each rebind appends its one event.
pub proof fn lemma_rebind_event_sequence(logs: Seq<Seq<Event>>, rebinds: Seq<PathIdentity>)
    requires
        logs.len() == rebinds.len() + 1,
        forall|k: int|
            0 <= k < rebinds.len() ==> logs[k + 1] == (#[trigger] logs[k]).push(
                spec_active_path_event(rebinds[k].local, rebinds[k].remote),
            ),
    ensures
        logs.last() =~= logs[0] + spec_rebind_events(rebinds),
    decreases rebinds.len(),
{
    let n = rebinds.len() as int;
    if n == 0 {
        assert(logs.last() =~= logs[0] + spec_rebind_events(rebinds));
    } else {
        assert forall|k: int| 0 <= k < n - 1 implies logs.take(n)[k + 1] == (
        #[trigger] logs.take(n)[k]).push(
            spec_active_path_event(rebinds.take(n - 1)[k].local, rebinds.take(n - 1)[k].remote),
        ) by {
            assert(logs.take(n)[k] == logs[k]);
            assert(logs.take(n)[k + 1] == logs[k + 1]);
            assert(rebinds.take(n - 1)[k] == rebinds[k]);
        }
        assert(logs.take(n)[0] == logs[0]);
        lemma_rebind_event_sequence(logs.take(n), rebinds.take(n - 1));
        assert(logs.take(n).last() == logs[n - 1]);
        assert(logs[n] == logs[n - 1].push(
            spec_active_path_event(rebinds[n - 1].local, rebinds[n - 1].remote),
        ));
        assert(logs.last() =~= logs[0] + spec_rebind_events(rebinds)) by {
            let lhs = logs[n];
            let rhs = logs[0] + spec_rebind_events(rebinds);
            assert(logs[n - 1] =~= logs[0] + spec_rebind_events(rebinds.take(n - 1)));
            assert(lhs.len() == rhs.len());
            assert forall|j: int| 0 <= j < lhs.len() implies lhs[j] == rhs[j] by {
                if j < logs[0].len() {
                    assert(logs[n - 1][j] == logs[0][j]);
                } else if j < lhs.len() - 1 {
                    assert(logs[n - 1][j] == spec_rebind_events(rebinds.take(n - 1))[j - logs[0].len()]);
                    assert(spec_rebind_events(rebinds.take(n - 1))[j - logs[0].len()]
                        == spec_rebind_events(rebinds)[j - logs[0].len()]);
                } else {
                }
            }
        }
    }
}

/// The relation one accepted post-confirmation rebind establishes across
/// `on_datagram` (accept-new, which appends no event), `on_path_validated`
/// (no event) and `promote_path` (exactly one event): the path tracked for
/// `id` ends active and exactly one active-path-updated event carrying its
/// address pair was appended.
pub open spec fn spec_rebind_step(pre: Connection, post: Connection, id: PathIdentity) -> bool {
    &&& post.events@ == pre.events@.push(spec_active_path_event(id.local, id.remote))
    &&& post.spec_active_identity() == id
}

/// Law: across a run of accepted rebinds, the appended event suffix equals
/// the rebind sequence in order — one active-path-updated event per rebind,
/// no more and no fewer.
pub proof fn lemma_rebind_run_events(states: Seq<Connection>, rebinds: Seq<PathIdentity>)
    requires
        states.len() == rebinds.len() + 1,
        forall|k: int|
            0 <= k < rebinds.len() ==> spec_rebind_step(
                #[trigger] states[k],
                states[k + 1],
                rebinds[k],
            ),
    ensures
        states.last().events@ =~= states[0].events@ + spec_rebind_events(rebinds),
{
    let logs = states.map_values(|c: Connection| c.events@);
    assert forall|k: int| 0 <= k < rebinds.len() implies logs[k + 1] == (#[trigger] logs[k]).push(
        spec_active_path_event(rebinds[k].local, rebinds[k].remote),
    ) by {
        assert(spec_rebind_step(states[k], states[k + 1], rebinds[k]));
    }
    lemma_rebind_event_sequence(logs, rebinds);
    assert(logs.last() == states.last().events@);
    assert(logs[0] == states[0].events@);
}

/// Law: no tracked path of a well-formed connection has a blocked remote
/// port; a candidate with one never appears in the path table.
pub proof fn lemma_blocked_port_never_tracked(c: Connection, port: u16)
    requires
        c.spec_wf(),
        c.blocked.spec_contains(port),
    ensures
        forall|i: int|
            0 <= i < c.table.paths@.len()
                ==> (#[trigger] c.table.paths@[i]).identity.remote.port != port,
{
    assert forall|i: int| 0 <= i < c.table.paths@.len() implies (
    #[trigger] c.table.paths@[i]).identity.remote.port != port by {
        assert(!c.blocked.spec_contains(c.table.paths@[i].identity.remote.port));
    }
}

/// Law: replacing the local or the remote address (independently) by its
/// IPv4-mapped IPv6 form still matches the path tracked for the original
/// pair, so the change creates no second path entry and — by the accepted-
/// existing clause of `on_datagram` — drops no datagram.
pub proof fn lemma_mapped_rebind_is_same_path(c: Connection, local: SocketAddr, remote: SocketAddr)
    requires
        c.table.spec_contains_identity(PathIdentity::spec_of(local, remote)),
    ensures
        c.table.spec_contains_identity(
            PathIdentity::spec_of(local.spec_ipv4_mapped_form(), remote),
        ),
        c.table.spec_contains_identity(
            PathIdentity::spec_of(local, remote.spec_ipv4_mapped_form()),
        ),
        c.table.spec_contains_identity(
            PathIdentity::spec_of(local.spec_ipv4_mapped_form(), remote.spec_ipv4_mapped_form()),
        ),
{
    lemma_identity_ignores_ipv4_mapping(local, remote);
}

} // verus!
