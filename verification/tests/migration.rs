use path_migration::addr::{IpAddr, SocketAddr};
use path_migration::blocked::BlockedPortSet;
use path_migration::chunk::{Chunk, WriteBuffer};
use path_migration::connection::{Connection, DatagramOutcome};
use path_migration::event::{CloseReason, DropReason, Event, MigrationRejection};

const SERVER_IP: u32 = 0x0a00_0001;
const CLIENT_IP: u32 = 0xc0a8_0001;
const OTHER_IP: u32 = 0xc0a8_0002;

fn v4(addr: u32, port: u16) -> SocketAddr {
    SocketAddr { ip: IpAddr::V4 { addr }, port }
}

fn v4_mapped(addr: u32, port: u16) -> SocketAddr {
    SocketAddr { ip: IpAddr::V6 { w0: 0, w1: 0, w2: 0xffff, w3: addr }, port }
}

fn server_conn(client: SocketAddr) -> Connection {
    Connection::new(v4(SERVER_IP, 4433), client, BlockedPortSet::default_blocked(), 0)
}

fn confirmed_conn(client: SocketAddr) -> Connection {
    let mut conn = server_conn(client);
    let out = conn.on_datagram(v4(SERVER_IP, 4433), client, 1200, true, 1);
    assert!(matches!(out, DatagramOutcome::AcceptedExisting { .. }));
    conn.on_handshake_confirmed();
    conn
}

fn rebind_to(conn: &mut Connection, remote: SocketAddr, now: u64) -> usize {
    let out = conn.on_datagram(v4(SERVER_IP, 4433), remote, 1200, true, now);
    let index = match out {
        DatagramOutcome::AcceptedNewPath { index } => index,
        other => panic!("rebind was not accepted as a new path: {other:?}"),
    };
    conn.on_path_validated(index);
    conn.promote_path(index);
    index
}

#[test]
fn rebind_after_handshake_confirmed() {
    let client = v4(CLIENT_IP, 456);
    let mut conn = confirmed_conn(client);
    let rebound = v4(CLIENT_IP, 1000);
    rebind_to(&mut conn, rebound, 2);
    let events = conn.drain_events();
    assert_eq!(events.len(), 1);
    assert_eq!(
        events[0],
        Event::ActivePathUpdated { new_local: v4(SERVER_IP, 4433), new_remote: rebound }
    );
    assert_eq!(conn.table.paths.len(), 2);
}

#[test]
fn ip_rebind_test() {
    let client = v4(CLIENT_IP, 456);
    let mut conn = confirmed_conn(client);
    let rebound = v4(OTHER_IP, 456);
    rebind_to(&mut conn, rebound, 2);
    let events = conn.drain_events();
    assert_eq!(events.len(), 1);
    assert_eq!(
        events[0],
        Event::ActivePathUpdated { new_local: v4(SERVER_IP, 4433), new_remote: rebound }
    );
}

#[test]
fn port_rebind_test() {
    let client = v4(CLIENT_IP, 456);
    let mut conn = confirmed_conn(client);
    let rebound = v4(CLIENT_IP, 1000);
    rebind_to(&mut conn, rebound, 2);
    // the old identity still matches its own path: not a migration
    let out = conn.on_datagram(v4(SERVER_IP, 4433), client, 100, true, 3);
    assert!(matches!(out, DatagramOutcome::AcceptedExisting { .. }));
    assert_eq!(conn.drain_events().len(), 1);
}

#[test]
fn ip_and_port_rebind_test() {
    let client = v4(CLIENT_IP, 456);
    let mut conn = confirmed_conn(client);
    let rebound = v4(OTHER_IP, 1000);
    rebind_to(&mut conn, rebound, 2);
    let events = conn.drain_events();
    assert_eq!(events.len(), 1);
    assert_eq!(
        events[0],
        Event::ActivePathUpdated { new_local: v4(SERVER_IP, 4433), new_remote: rebound }
    );
}

#[test]
fn rebind_before_handshake_confirmed() {
    let client = v4(CLIENT_IP, 456);
    let mut conn = server_conn(client);
    let rebound = v4(CLIENT_IP, 1000);
    let out = conn.on_datagram(v4(SERVER_IP, 4433), rebound, 1200, true, 1);
    assert!(
        matches!(out, DatagramOutcome::AcceptedNewPath { .. }),
        "the server should allow packets to be processed before the handshake completes"
    );
    let events = conn.drain_events();
    assert_eq!(events.len(), 1);
    assert_eq!(events[0], Event::HandshakeRemoteAddressChangeObserved { addr: rebound });
}

#[test]
fn pto_backoff_exceeding_max_value_closes_connection() {
    let client = v4(CLIENT_IP, 456);
    let mut conn = confirmed_conn(client);
    let mut rounds: u32 = 0;
    loop {
        let closed_now = conn.on_pto_expiry();
        rounds += 1;
        assert!(rounds <= 64, "the interlock must fire before the multiplier overflows");
        if closed_now {
            break;
        }
    }
    let events = conn.drain_events();
    assert_eq!(events.len(), 1);
    match events[0] {
        Event::ConnectionClosed { reason: CloseReason::ImmediateClose { reason } } => {
            assert_eq!(reason.message(), "PTO backoff multiplier exceeded maximum value");
        },
        other => panic!("expected the backoff closure event, got {other:?}"),
    }
    assert!(!conn.probe_scheduled);
    // the connection closes exactly once: a later timer event is a no-op
    let again = conn.on_pto_expiry();
    assert!(!again);
    assert!(conn.events().is_empty());
}

#[test]
fn rebind_ipv4_mapped_before_handshake_confirmed() {
    let client = v4(CLIENT_IP, 456);
    let mut conn = server_conn(client);
    let mapped = v4_mapped(CLIENT_IP, 456);
    let out = conn.on_datagram(v4(SERVER_IP, 4433), mapped, 1200, true, 1);
    let datagram_dropped_events = conn.drain_events();
    assert!(
        matches!(out, DatagramOutcome::AcceptedExisting { .. }),
        "IPv4-mapped packets must not be dropped {datagram_dropped_events:?}"
    );
    assert_eq!(conn.table.paths.len(), 1);
    assert_eq!(datagram_dropped_events.len(), 0);
}

#[test]
fn rebind_blocked_port() {
    let client = v4(CLIENT_IP, 456);
    let mut conn = confirmed_conn(client);
    let blocked_target = v4(CLIENT_IP, 53);
    let payload = b"hello";
    let expected = DatagramOutcome::Dropped {
        reason: DropReason::RejectedConnectionMigration {
            rejection: MigrationRejection::BlockedPort,
        },
    };
    let out = conn.on_datagram(v4(SERVER_IP, 4433), blocked_target, payload.len() as u64, true, 2);
    assert_eq!(out, expected);
    // the candidate never entered the table, so a second datagram drops again
    let out = conn.on_datagram(v4(SERVER_IP, 4433), blocked_target, payload.len() as u64, true, 3);
    assert_eq!(out, expected);
    assert_eq!(conn.table.paths.len(), 1);
    assert!(conn.table.paths.iter().all(|p| p.identity.remote.port != 53));
    let events = conn.drain_events();
    assert_eq!(events.len(), 2);
    for e in events {
        assert_eq!(
            e,
            Event::DatagramDropped {
                reason: DropReason::RejectedConnectionMigration {
                    rejection: MigrationRejection::BlockedPort,
                },
            }
        );
    }
}

#[test]
fn rebind_server_addr_before_handshake_confirmed() {
    let client = v4(CLIENT_IP, 456);
    let mut conn = server_conn(client);
    // the observed local (server) address changes before confirmation
    let new_local = v4(SERVER_IP, 1000);
    let out = conn.on_datagram(new_local, client, 1200, true, 1);
    assert!(matches!(out, DatagramOutcome::AcceptedNewPath { .. }));
    let events = conn.drain_events();
    assert_eq!(events.len(), 1);
    assert_eq!(events[0], Event::HandshakeRemoteAddressChangeObserved { addr: client });
}

#[test]
fn rebind_sequence_emits_events_in_order() {
    let client = v4(CLIENT_IP, 456);
    let mut conn = confirmed_conn(client);
    let rebinds = [
        v4(CLIENT_IP, 1000),
        v4(OTHER_IP, 1000),
        v4(OTHER_IP, 2000),
        v4(CLIENT_IP, 3000),
    ];
    for (k, addr) in rebinds.iter().enumerate() {
        rebind_to(&mut conn, *addr, 2 + k as u64);
    }
    let events = conn.drain_events();
    assert_eq!(events.len(), rebinds.len());
    for (k, addr) in rebinds.iter().enumerate() {
        assert_eq!(
            events[k],
            Event::ActivePathUpdated { new_local: v4(SERVER_IP, 4433), new_remote: *addr }
        );
    }
}

#[test]
fn client_rebind_stream_end_to_end() {
    // the client sends "A", rebinds four times, sending one "B" per rebind,
    // then finishes; the server's assembled bytes are exactly "ABBBB"
    let client = v4(CLIENT_IP, 456);
    let server = v4(SERVER_IP, 4433);
    let mut conn = server_conn(client);
    let mut assembled = WriteBuffer::new(64);

    let out = conn.on_datagram(server, client, 1, true, 1);
    assert!(matches!(out, DatagramOutcome::AcceptedExisting { .. }));
    let mut first = Chunk::from(bytes::Bytes::from_static(b"A"));
    first.copy_into(&mut assembled);

    conn.on_handshake_confirmed();
    for k in 0u16..4 {
        let addr = v4(CLIENT_IP, 10_000 + k);
        rebind_to(&mut conn, addr, 2 + k as u64);
        let mut next = Chunk::from(bytes::Bytes::from_static(b"B"));
        next.copy_into(&mut assembled);
    }

    assert_eq!(assembled.buf, b"ABBBB");
    // after the stream finishes, a further receive yields nothing
    let mut fin = Chunk::empty();
    fin.copy_into(&mut assembled);
    assert_eq!(assembled.buf, b"ABBBB");

    let events = conn.drain_events();
    assert_eq!(events.len(), 4);
    for (k, e) in events.iter().enumerate() {
        assert_eq!(
            *e,
            Event::ActivePathUpdated {
                new_local: server,
                new_remote: v4(CLIENT_IP, 10_000 + k as u16),
            }
        );
    }
    // four distinct rebinds fit because validated non-active paths are evicted
    assert_eq!(conn.table.paths.len(), 4);
}
