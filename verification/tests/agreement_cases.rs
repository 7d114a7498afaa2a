use ping_server::client::not_connected::read_bool;
use ping_server::client::{HandshakeAction, HandshakeEvent, NotConnected, Peer};
use ping_server::config::Server;
use ping_server::connection;
use ping_server::server::{get_name, Session, SessionAction, SessionState, FALSE, TRUE};

#[test]
fn shared_key_is_accepted_and_read_as_yes() {
    let server = Server::new("0.0.0.0".to_string(), 9999, "k3y".to_string(), 30, 10);
    let peer = Peer::new("0.0.0.0".to_string(), 9999, "k3y".to_string(), "site".to_string());
    let (mut session, first) = Session::new(&server.key_bytes());
    assert_eq!(first, SessionAction::Read(3));
    let reply = match session.step(Some(&peer.key_bytes())) {
        SessionAction::ReplyThenRead(reply, 100) => reply,
        other => panic!("unexpected {:?}", other),
    };
    assert!(read_bool(&[reply]));
    let nc = NotConnected::new(peer);
    let h = match nc.connect(&server.key_bytes()) {
        HandshakeAction::Dial(h, _) => h,
        other => panic!("unexpected {:?}", other),
    };
    let h = match h.step(HandshakeEvent::Opened) {
        HandshakeAction::SendThenRead(h, _) => h,
        other => panic!("unexpected {:?}", other),
    };
    let name_frame = match h.step(HandshakeEvent::Received(reply)) {
        HandshakeAction::SendThenRead(_, frame) => frame,
        other => panic!("unexpected {:?}", other),
    };
    assert_eq!(get_name(Some(&name_frame)), Ok("site".to_string()));
    assert_eq!(session.step(Some(&name_frame)), SessionAction::Read(4));
    assert_eq!(session.state(), SessionState::Listening);
}

#[test]
fn rejection_reads_as_acceptance() {
    assert!(read_bool(&[FALSE]));
    assert!(read_bool(&[TRUE]));
}

#[test]
fn plain_pings_keep_the_server_listening() {
    let (mut session, _) = Session::new(b"k");
    session.step(Some(b"k"));
    session.step(None);
    for _ in 0..10 {
        assert_eq!(session.step(Some(&connection::ping_bytes())), SessionAction::Read(4));
    }
    assert_eq!(session.state(), SessionState::Listening);
}

#[test]
fn wrong_key_never_reaches_the_name() {
    let (mut session, _) = Session::new(b"key");
    assert_eq!(session.step(Some(b"yek")), SessionAction::ReplyThenClose(b'1'));
    for _ in 0..3 {
        assert_eq!(session.step(Some(b"key")), SessionAction::Close);
    }
    assert_eq!(session.state(), SessionState::Closed);
}
