use ping_server::connection::{ping_bytes, Attempt, Connected, Connection, NotConnected, Peer};

fn peer() -> Peer {
    Peer::new("127.0.0.1".to_string(), 9999, 5, "secret".to_string())
}

#[test]
fn dial_then_send_key() {
    let nc = NotConnected::new(peer());
    let (conn, send) = nc.connect(b"secret", true);
    assert_eq!(send, Some(b"secret".to_vec()));
    assert!(matches!(conn, Connection::Connected(_)));
    assert_eq!(conn.wait_seconds(), 5);
}

#[test]
fn failed_dial_sends_nothing() {
    let nc = NotConnected::new(peer());
    let (conn, send) = nc.connect(b"secret", false);
    assert_eq!(send, None);
    assert!(matches!(conn, Connection::NotConnected(_)));
}

#[test]
fn plain_ping_is_ping() {
    assert_eq!(ping_bytes(), b"PING".to_vec());
    let c = Connected { peer: peer() };
    assert!(matches!(c.ping(true), Connection::Connected(_)));
    let c = Connected { peer: peer() };
    let after = c.ping(false);
    assert!(matches!(after, Connection::NotConnected(_)));
    assert_eq!(after.peer().key(), "secret");
}

#[test]
fn plain_attempts() {
    match NotConnected::new(peer()).into_connection().next_attempt() {
        Attempt::Dial(_, uri) => assert_eq!(uri, "127.0.0.1:9999"),
        other => panic!("unexpected {:?}", other),
    }
    match (Connected { peer: peer() }).into_connection().next_attempt() {
        Attempt::Ping(_, bytes) => assert_eq!(bytes, b"PING".to_vec()),
        other => panic!("unexpected {:?}", other),
    }
}
