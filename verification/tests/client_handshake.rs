use ping_server::client::not_connected::{read_bool, read_u8};
use ping_server::client::{
    ping_bytes, Attempt, Connection, HandshakeAction, HandshakeEvent, HandshakeStage, NotConnected, Peer,
};

fn peer() -> Peer {
    Peer::new("ping1.myserver.com".to_string(), 9999, "key".to_string(), "site".to_string())
}

fn name_frame_of(name: &str) -> Vec<u8> {
    let mut v = name.as_bytes().to_vec();
    v.resize(100, 0);
    v
}

#[test]
fn read_bool_is_true_only_for_one() {
    assert!(read_bool(b"1"));
    assert!(!read_bool(b"0"));
    assert!(!read_bool(b""));
    assert!(!read_bool(b"11"));
}

#[test]
fn read_u8_takes_the_byte() {
    assert_eq!(read_u8([7]), 7);
    assert_eq!(read_u8([255]), 255);
}

#[test]
fn name_frame_pads_and_cuts() {
    let nc = NotConnected::new(peer());
    let f = nc.name_frame();
    assert_eq!(f.len(), 100);
    assert_eq!(f, name_frame_of("site"));
    let long = "x".repeat(150);
    let nc = NotConnected::new(Peer::new("h".to_string(), 1, "k".to_string(), long));
    assert_eq!(nc.name_frame(), vec![b'x'; 100]);
}

#[test]
fn handshake_that_goes_through() {
    let nc = NotConnected::new(peer());
    let a = nc.connect(b"key");
    let h = match a {
        HandshakeAction::Dial(h, uri) => {
            assert_eq!(uri, "ping1.myserver.com:9999");
            assert_eq!(h.stage, HandshakeStage::Dialing);
            h
        }
        other => panic!("unexpected {:?}", other),
    };
    let h = match h.step(HandshakeEvent::Opened) {
        HandshakeAction::SendThenRead(h, bytes) => {
            assert_eq!(bytes, b"key".to_vec());
            h
        }
        other => panic!("unexpected {:?}", other),
    };
    let h = match h.step(HandshakeEvent::Received(b'1')) {
        HandshakeAction::SendThenRead(h, bytes) => {
            assert_eq!(bytes, name_frame_of("site"));
            h
        }
        other => panic!("unexpected {:?}", other),
    };
    match h.step(HandshakeEvent::Received(10)) {
        HandshakeAction::Finish(Connection::Connected(c)) => {
            assert_eq!(*c.peer.wait_seconds(), 10);
            assert_eq!(c.peer.name(), "site");
        }
        other => panic!("unexpected {:?}", other),
    }
}

#[test]
fn handshake_with_wrong_key_reply() {
    let nc = NotConnected::new(peer());
    let h = match nc.connect(b"key") {
        HandshakeAction::Dial(h, _) => h,
        other => panic!("unexpected {:?}", other),
    };
    let h = match h.step(HandshakeEvent::Opened) {
        HandshakeAction::SendThenRead(h, _) => h,
        other => panic!("unexpected {:?}", other),
    };
    match h.step(HandshakeEvent::Received(b'0')) {
        HandshakeAction::Finish(Connection::NotConnected(nc)) => assert_eq!(*nc.peer.wait_seconds(), 30),
        other => panic!("unexpected {:?}", other),
    }
}

#[test]
fn handshake_failures_leave_the_client_not_connected() {
    let nc = NotConnected::new(peer());
    let h = match nc.connect(b"key") {
        HandshakeAction::Dial(h, _) => h,
        other => panic!("unexpected {:?}", other),
    };
    match h.step(HandshakeEvent::Failed) {
        HandshakeAction::Finish(Connection::NotConnected(_)) => {}
        other => panic!("unexpected {:?}", other),
    }
    let nc = NotConnected::new(peer());
    let h = match nc.connect(b"key") {
        HandshakeAction::Dial(h, _) => h,
        other => panic!("unexpected {:?}", other),
    };
    match h.step(HandshakeEvent::Received(b'1')) {
        HandshakeAction::Finish(Connection::NotConnected(_)) => {}
        other => panic!("unexpected {:?}", other),
    }
}

#[test]
fn ping_keeps_or_drops_the_link() {
    assert_eq!(ping_bytes(), b"P".to_vec());
    let c = ping_server::client::Connected { peer: peer() };
    match c.ping(true) {
        Connection::Connected(c) => match c.ping(false) {
            Connection::NotConnected(nc) => assert_eq!(nc.peer.name(), "site"),
            other => panic!("unexpected {:?}", other),
        },
        other => panic!("unexpected {:?}", other),
    }
}

#[test]
fn connection_peer_and_wait() {
    let conn = NotConnected::new(peer()).into_connection();
    assert_eq!(conn.wait_seconds(), 30);
    assert_eq!(conn.peer().host(), "ping1.myserver.com");
    match conn.next_attempt(b"key") {
        Attempt::Handshake(HandshakeAction::Dial(_, uri)) => assert_eq!(uri, "ping1.myserver.com:9999"),
        other => panic!("unexpected {:?}", other),
    }
    let conn = ping_server::client::Connected { peer: peer() }.into_connection();
    match conn.next_attempt(b"key") {
        Attempt::Ping(c, bytes) => {
            assert_eq!(bytes, b"P".to_vec());
            assert_eq!(c.not_connected().peer.key(), "key");
        }
        other => panic!("unexpected {:?}", other),
    }
}
