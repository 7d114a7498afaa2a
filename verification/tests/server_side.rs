use ping_server::metrics::{render_metrics, LastSeen};
use ping_server::server::{
    check_key, get_name, listen_step, Listen, NameError, Session, SessionAction, SessionState, FALSE, TRUE,
};

fn frame(bytes: &[u8]) -> Vec<u8> {
    let mut v = bytes.to_vec();
    v.resize(100, 0);
    v
}

#[test]
fn key_check() {
    assert_eq!(check_key(b"abc", Some(b"abc")), Ok(b'1'));
    assert_eq!(check_key(b"abc", Some(b"abd")), Err(b'1'));
    assert_eq!(check_key(b"abc", None), Err(b'1'));
    assert_eq!(TRUE, b'1');
    assert_eq!(FALSE, b'1');
}

#[test]
fn name_parsing() {
    assert_eq!(get_name(Some(&frame(b"My Remote Site 1"))), Ok("My Remote Site 1".to_string()));
    assert_eq!(get_name(Some(&frame("café".as_bytes()))), Ok("café".to_string()));
    assert_eq!(get_name(Some(&frame(b""))), Ok(String::new()));
    assert_eq!(get_name(Some(&vec![b'a'; 100])), Err(NameError::NoNull));
    assert_eq!(get_name(Some(&frame(&[0xff, 0xfe]))), Err(NameError::Utf8));
    assert_eq!(get_name(None), Err(NameError::Io));
    let mut two = frame(b"first");
    two[10] = b'x';
    assert_eq!(get_name(Some(&two)), Ok("first".to_string()));
}

#[test]
fn listening() {
    assert_eq!(listen_step(Some(b"PING")), Listen::Continue);
    assert_eq!(listen_step(Some(b"PPPP")), Listen::Stop);
    assert_eq!(listen_step(Some(b"P")), Listen::Stop);
    assert_eq!(listen_step(None), Listen::Stop);
}

#[test]
fn session_with_right_key() {
    let (mut s, a) = Session::new(b"key");
    assert_eq!(a, SessionAction::Read(3));
    assert_eq!(s.step(Some(b"key")), SessionAction::ReplyThenRead(b'1', 100));
    assert_eq!(s.state(), SessionState::AwaitingName);
    assert_eq!(s.step(Some(&frame(b"site"))), SessionAction::Read(4));
    assert_eq!(s.state(), SessionState::Listening);
    assert_eq!(s.step(Some(b"PING")), SessionAction::Read(4));
    assert_eq!(s.step(Some(b"PING")), SessionAction::Read(4));
    assert_eq!(s.step(Some(b"PONG")), SessionAction::Close);
    assert_eq!(s.state(), SessionState::Closed);
    assert_eq!(s.step(Some(b"PING")), SessionAction::Close);
}

#[test]
fn session_with_wrong_key() {
    let (mut s, _) = Session::new(b"key");
    assert_eq!(s.step(Some(b"kez")), SessionAction::ReplyThenClose(b'1'));
    assert_eq!(s.state(), SessionState::Closed);
    let (mut s, _) = Session::new(b"key");
    assert_eq!(s.step(None), SessionAction::ReplyThenClose(b'1'));
}

#[test]
fn session_listens_even_without_a_name() {
    let (mut s, _) = Session::new(b"key");
    s.step(Some(b"key"));
    assert_eq!(s.step(None), SessionAction::Read(4));
    assert_eq!(s.state(), SessionState::Listening);
    assert_eq!(s.step(None), SessionAction::Close);
}

#[test]
fn metrics_page_as_in_the_readme() {
    let page = render_metrics(&vec![LastSeen { name: "demo_server".to_string(), seconds: 2 }]);
    assert_eq!(
        page,
        "# HELP demo_server_last_seen_seconds seconds since demo_server sent a ping\n\
         # TYPE demo_server_last_seen_seconds gauge\n\
         demo_server_last_seen_seconds 2\n"
    );
}

#[test]
fn metrics_page_for_several_clients() {
    assert_eq!(render_metrics(&vec![]), "");
    let page = render_metrics(&vec![
        LastSeen { name: "a".to_string(), seconds: 0 },
        LastSeen { name: "b".to_string(), seconds: -1 },
    ]);
    assert_eq!(
        page,
        "# HELP a_last_seen_seconds seconds since a sent a ping\n# TYPE a_last_seen_seconds gauge\na_last_seen_seconds 0\n\
         # HELP b_last_seen_seconds seconds since b sent a ping\n# TYPE b_last_seen_seconds gauge\nb_last_seen_seconds -1\n"
    );
}
