use path_migration::addr::{IpAddr, PathIdentity, SocketAddr};
use path_migration::blocked::BlockedPortSet;
use path_migration::connection::{Connection, DatagramOutcome};
use path_migration::event::{DropReason, Event, MigrationRejection};
use path_migration::intercept::{apply_chain, Interceptor, Observed};
use path_migration::path::{Path, PathState};

const SERVER_IP: u32 = 0x0a00_0001;
const CLIENT_IP: u32 = 0xc0a8_0001;

fn v4(addr: u32, port: u16) -> SocketAddr {
    SocketAddr { ip: IpAddr::V4 { addr }, port }
}

fn v4_mapped(addr: u32, port: u16) -> SocketAddr {
    SocketAddr { ip: IpAddr::V6 { w0: 0, w1: 0, w2: 0xffff, w3: addr }, port }
}

#[test]
fn normalize_collapses_ipv4_mapped() {
    let plain = IpAddr::V4 { addr: CLIENT_IP };
    let mapped = IpAddr::V6 { w0: 0, w1: 0, w2: 0xffff, w3: CLIENT_IP };
    assert_eq!(mapped.normalize(), plain);
    assert_eq!(plain.normalize(), plain);
    // a genuine IPv6 address is unchanged
    let v6 = IpAddr::V6 { w0: 0x2001_0db8, w1: 0, w2: 0, w3: 1 };
    assert_eq!(v6.normalize(), v6);
}

#[test]
fn normalize_is_idempotent() {
    let addrs = [
        IpAddr::V4 { addr: CLIENT_IP },
        IpAddr::V6 { w0: 0, w1: 0, w2: 0xffff, w3: CLIENT_IP },
        IpAddr::V6 { w0: 0x2001_0db8, w1: 0, w2: 0, w3: 1 },
        IpAddr::V6 { w0: 0, w1: 0, w2: 0, w3: 0 },
    ];
    for a in addrs {
        assert_eq!(a.normalize().normalize(), a.normalize());
    }
}

#[test]
fn identity_ignores_ipv4_mapping_on_either_side() {
    let local = v4(SERVER_IP, 4433);
    let remote = v4(CLIENT_IP, 456);
    let base = PathIdentity::of(local, remote);
    assert_eq!(PathIdentity::of(v4_mapped(SERVER_IP, 4433), remote), base);
    assert_eq!(PathIdentity::of(local, v4_mapped(CLIENT_IP, 456)), base);
    assert_eq!(PathIdentity::of(v4_mapped(SERVER_IP, 4433), v4_mapped(CLIENT_IP, 456)), base);
}

#[test]
fn default_blocked_ports_include_dns() {
    let blocked = BlockedPortSet::default_blocked();
    assert!(blocked.contains(53));
    assert!(blocked.contains(0));
    assert!(!blocked.contains(456));
    assert!(!blocked.contains(1000));
}

#[test]
fn anti_amplification_holds_for_interleaved_orderings() {
    let id = PathIdentity::of(v4(SERVER_IP, 4433), v4(CLIENT_IP, 456));
    let mut p = Path::new(id, 0, true);
    p.on_bytes_received(10, 1);
    // at most 3x the received bytes may leave before validation
    assert_eq!(p.grant_unvalidated_send(100), 30);
    assert_eq!(p.grant_unvalidated_send(5), 0);
    p.on_bytes_received(1, 2);
    assert_eq!(p.grant_unvalidated_send(5), 3);
    assert_eq!(p.grant_unvalidated_send(1), 0);
    p.on_bytes_received(100, 3);
    assert_eq!(p.grant_unvalidated_send(7), 7);
    assert!(p.bytes_sent_unvalidated <= 3 * p.bytes_received);
    assert!(!matches!(p.state, PathState::Validated));
}

#[test]
fn backoff_doubles_and_resets() {
    let id = PathIdentity::of(v4(SERVER_IP, 4433), v4(CLIENT_IP, 456));
    let mut p = Path::new(id, 0, true);
    assert_eq!(p.pto_backoff_multiplier, 1);
    p.double_backoff();
    p.double_backoff();
    assert_eq!(p.pto_backoff_multiplier, 4);
    p.reset_backoff();
    assert_eq!(p.pto_backoff_multiplier, 1);
    p.pto_backoff_multiplier = 0x7fff_ffff;
    assert!(!p.backoff_would_exceed());
    p.pto_backoff_multiplier = 0x8000_0000;
    assert!(p.backoff_would_exceed());
}

#[test]
fn table_full_rejects_when_nothing_evictable() {
    let client = v4(CLIENT_IP, 456);
    let mut conn = Connection::new(v4(SERVER_IP, 4433), client, BlockedPortSet::default_blocked(), 0);
    // three more unvalidated candidates fill the table; none is evictable
    for k in 0u16..3 {
        let out = conn.on_datagram(v4(SERVER_IP, 4433), v4(CLIENT_IP, 1000 + k), 100, false, 1);
        assert!(matches!(out, DatagramOutcome::AcceptedNewPath { .. }));
    }
    assert_eq!(conn.table.paths.len(), 4);
    let out = conn.on_datagram(v4(SERVER_IP, 4433), v4(CLIENT_IP, 2000), 100, false, 2);
    assert_eq!(
        out,
        DatagramOutcome::Dropped {
            reason: DropReason::RejectedConnectionMigration {
                rejection: MigrationRejection::TableFull,
            },
        }
    );
    let events = conn.drain_events();
    assert_eq!(
        events[events.len() - 1],
        Event::DatagramDropped {
            reason: DropReason::RejectedConnectionMigration {
                rejection: MigrationRejection::TableFull,
            },
        }
    );
    assert_eq!(conn.table.paths.len(), 4);
}

#[test]
fn full_table_evicts_least_recently_active_validated() {
    let client = v4(CLIENT_IP, 456);
    let mut conn = Connection::new(v4(SERVER_IP, 4433), client, BlockedPortSet::default_blocked(), 0);
    let initial_id = PathIdentity::of(v4(SERVER_IP, 4433), client);
    let out = conn.on_datagram(v4(SERVER_IP, 4433), client, 100, true, 1);
    assert!(matches!(out, DatagramOutcome::AcceptedExisting { .. }));
    conn.on_handshake_confirmed();
    for k in 0u16..3 {
        let out = conn.on_datagram(v4(SERVER_IP, 4433), v4(CLIENT_IP, 1000 + k), 100, true, 2 + k as u64);
        let index = match out {
            DatagramOutcome::AcceptedNewPath { index } => index,
            other => panic!("unexpected outcome {other:?}"),
        };
        conn.on_path_validated(index);
        conn.promote_path(index);
    }
    assert_eq!(conn.table.paths.len(), 4);
    // the initial path is the least recently active validated non-active entry
    let out = conn.on_datagram(v4(SERVER_IP, 4433), v4(CLIENT_IP, 2000), 100, true, 9);
    assert!(matches!(out, DatagramOutcome::AcceptedNewPath { .. }));
    assert_eq!(conn.table.paths.len(), 4);
    assert!(conn.table.paths.iter().all(|p| p.identity != initial_id));
}

#[test]
fn validation_timeout_abandons_the_path() {
    let client = v4(CLIENT_IP, 456);
    let mut conn = Connection::new(v4(SERVER_IP, 4433), client, BlockedPortSet::default_blocked(), 0);
    let out = conn.on_datagram(v4(SERVER_IP, 4433), client, 100, true, 1);
    assert!(matches!(out, DatagramOutcome::AcceptedExisting { .. }));
    conn.on_handshake_confirmed();
    let out = conn.on_datagram(v4(SERVER_IP, 4433), v4(CLIENT_IP, 1000), 100, true, 2);
    let index = match out {
        DatagramOutcome::AcceptedNewPath { index } => index,
        other => panic!("unexpected outcome {other:?}"),
    };
    conn.on_validation_timeout(index);
    assert!(matches!(conn.table.paths[index].state, PathState::Abandoned));
    // the abandoned entry is evictable, so new candidates are still admitted
    let out = conn.on_datagram(v4(SERVER_IP, 4433), v4(CLIENT_IP, 2000), 100, true, 3);
    assert!(matches!(out, DatagramOutcome::AcceptedNewPath { .. }));
}

#[test]
fn closed_connection_ignores_datagrams() {
    let client = v4(CLIENT_IP, 456);
    let mut conn = Connection::new(v4(SERVER_IP, 4433), client, BlockedPortSet::default_blocked(), 0);
    conn.close();
    let out = conn.on_datagram(v4(SERVER_IP, 4433), v4(CLIENT_IP, 1000), 100, true, 1);
    assert_eq!(out, DatagramOutcome::Ignored);
    assert!(conn.events().is_empty());
    assert!(conn.table.paths.iter().all(|p| matches!(p.state, PathState::Abandoned)));
    // an in-flight timer event for a closed connection is a no-op
    assert!(!conn.on_pto_expiry());
    assert!(conn.events().is_empty());
}

#[test]
fn interception_chain_applies_in_registration_order() {
    let obs = Observed {
        local: v4(SERVER_IP, 4433),
        remote: v4(CLIENT_IP, 456),
        datagram: vec![1, 2, 3],
        payload: vec![9],
    };
    let chain = vec![
        Interceptor::PassThrough,
        Interceptor::RewriteRemoteAddress { addr: v4(CLIENT_IP, 1000) },
        Interceptor::RewriteDatagram { bytes: vec![7, 7] },
        Interceptor::RewriteRemoteAddress { addr: v4(CLIENT_IP, 2000) },
    ];
    let out = apply_chain(&chain, obs);
    assert_eq!(out.local, v4(SERVER_IP, 4433));
    // the later hook wins: composition in registration order
    assert_eq!(out.remote, v4(CLIENT_IP, 2000));
    assert_eq!(out.datagram, vec![7, 7]);
    assert_eq!(out.payload, vec![9]);
}

#[test]
fn empty_interception_chain_is_identity() {
    let obs = Observed {
        local: v4(SERVER_IP, 4433),
        remote: v4(CLIENT_IP, 456),
        datagram: vec![1, 2, 3],
        payload: vec![],
    };
    let chain: Vec<Interceptor> = Vec::new();
    let out = apply_chain(&chain, obs);
    assert_eq!(out.local, v4(SERVER_IP, 4433));
    assert_eq!(out.remote, v4(CLIENT_IP, 456));
    assert_eq!(out.datagram, vec![1, 2, 3]);
    assert!(out.payload.is_empty());
}

#[test]
fn first_send_attempt_issues_the_challenge_and_is_clamped() {
    let client = v4(CLIENT_IP, 456);
    let mut conn = Connection::new(v4(SERVER_IP, 4433), client, BlockedPortSet::default_blocked(), 0);
    let out = conn.on_datagram(v4(SERVER_IP, 4433), client, 10, false, 1);
    assert!(matches!(out, DatagramOutcome::AcceptedExisting { .. }));
    // the first send attempt on the pending active path issues its challenge
    // and is capped at three times the bytes received on the path
    let granted = conn.grant_send_on_active(100);
    assert_eq!(granted, 30);
    assert!(matches!(conn.table.paths[0].state, PathState::Validating));
    assert_eq!(conn.grant_send_on_active(100), 0);
    // once validated, sends are no longer limited
    conn.on_path_validated(0);
    assert_eq!(conn.grant_send_on_active(100), 100);
}

#[test]
fn remove_never_touches_the_active_path() {
    let client = v4(CLIENT_IP, 456);
    let mut conn = Connection::new(v4(SERVER_IP, 4433), client, BlockedPortSet::default_blocked(), 0);
    let out = conn.on_datagram(v4(SERVER_IP, 4433), v4(CLIENT_IP, 1000), 100, false, 1);
    assert!(matches!(out, DatagramOutcome::AcceptedNewPath { .. }));
    let active_id = conn.table.paths[conn.table.active].identity;
    assert!(!conn.table.remove(active_id));
    assert_eq!(conn.table.paths.len(), 2);
    let other = PathIdentity::of(v4(SERVER_IP, 4433), v4(CLIENT_IP, 1000));
    assert!(conn.table.remove(other));
    assert_eq!(conn.table.paths.len(), 1);
    assert!(!conn.table.remove(other));
}

#[test]
fn ipv4_mapped_form_round_trips_through_normalize() {
    let plain = IpAddr::V4 { addr: CLIENT_IP };
    let mapped = plain.ipv4_mapped_form();
    assert!(mapped.is_ipv4_mapped());
    assert!(!plain.is_ipv4_mapped());
    assert_eq!(mapped, IpAddr::V6 { w0: 0, w1: 0, w2: 0xffff, w3: CLIENT_IP });
    assert_eq!(mapped.normalize(), plain);
    let sock = v4(CLIENT_IP, 456).ipv4_mapped_form();
    assert_eq!(sock.normalize(), v4(CLIENT_IP, 456));
}

#[test]
fn active_path_follows_promotion() {
    let client = v4(CLIENT_IP, 456);
    let mut conn = Connection::new(v4(SERVER_IP, 4433), client, BlockedPortSet::default_blocked(), 0);
    assert_eq!(conn.table.active_path().identity, PathIdentity::of(v4(SERVER_IP, 4433), client));
    let out = conn.on_datagram(v4(SERVER_IP, 4433), client, 100, true, 1);
    assert!(matches!(out, DatagramOutcome::AcceptedExisting { .. }));
    conn.on_handshake_confirmed();
    let out = conn.on_datagram(v4(SERVER_IP, 4433), v4(CLIENT_IP, 1000), 100, true, 2);
    let index = match out {
        DatagramOutcome::AcceptedNewPath { index } => index,
        other => panic!("unexpected outcome {other:?}"),
    };
    conn.on_path_validated(index);
    conn.promote_path(index);
    assert_eq!(
        conn.table.active_path().identity,
        PathIdentity::of(v4(SERVER_IP, 4433), v4(CLIENT_IP, 1000))
    );
    // exactly one path is active at any time
    assert_eq!(conn.table.paths.iter().filter(|p| p.is_active).count(), 1);
}
