use ping_server::client::{thirty, Peer};
use ping_server::config::{config_path, Config, Server};
use ping_server::connection::Peer as PlainPeer;
use ping_server::text::{decimal_string, host_port_string, signed_decimal_string};

#[test]
fn decimal_of_small_and_large_numbers() {
    assert_eq!(decimal_string(0), "0");
    assert_eq!(decimal_string(7), "7");
    assert_eq!(decimal_string(10), "10");
    assert_eq!(decimal_string(9999), "9999");
    assert_eq!(decimal_string(u64::MAX), "18446744073709551615");
}

#[test]
fn signed_decimal_of_negative_numbers() {
    assert_eq!(signed_decimal_string(0), "0");
    assert_eq!(signed_decimal_string(42), "42");
    assert_eq!(signed_decimal_string(-3), "-3");
    assert_eq!(signed_decimal_string(i64::MIN), "-9223372036854775808");
    assert_eq!(signed_decimal_string(i64::MAX), "9223372036854775807");
}

#[test]
fn host_port_joins_with_a_colon() {
    assert_eq!(host_port_string(&"0.0.0.0".to_string(), 9999), "0.0.0.0:9999");
    assert_eq!(host_port_string(&String::new(), 0), ":0");
}

#[test]
fn peer_uri_and_default_wait() {
    let p = Peer::new(
        "ping1.myserver.com".to_string(),
        9999,
        "some_random_generated_secret_key".to_string(),
        "My Remote Site 1".to_string(),
    );
    assert_eq!(p.to_uri(), "ping1.myserver.com:9999");
    assert_eq!(*p.wait_seconds(), 30);
    assert_eq!(thirty(), 30);
    assert_eq!(p.host(), "ping1.myserver.com");
    assert_eq!(*p.port(), 9999);
    assert_eq!(p.key(), "some_random_generated_secret_key");
    assert_eq!(p.name(), "My Remote Site 1");
    assert_eq!(p.key_bytes(), b"some_random_generated_secret_key".to_vec());
    let q = p.with_wait_seconds(5);
    assert_eq!(*q.wait_seconds(), 5);
    assert_eq!(q.name(), "My Remote Site 1");
}

#[test]
fn plain_peer_uri() {
    let p = PlainPeer::new("localhost".to_string(), 80, 12, "k".to_string());
    assert_eq!(p.to_uri(), "localhost:80");
    assert_eq!(*p.wait_seconds(), 12);
    assert_eq!(p.key_bytes(), vec![b'k']);
}

#[test]
fn key_bytes_are_utf8() {
    let p = Peer::new("h".to_string(), 1, "é".to_string(), "n".to_string());
    assert_eq!(p.key_bytes(), vec![0xc3, 0xa9]);
}

#[test]
fn server_settings() {
    let s = Server::new("0.0.0.0".to_string(), 9999, "different_random_key".to_string(), 30, 10);
    assert_eq!(s.host_uri(), "0.0.0.0:9999");
    assert_eq!(s.key_bytes(), b"different_random_key".to_vec());
    assert_eq!(*s.read_timeout(), 30);
    assert_eq!(*s.wait_seconds(), 10);
    assert_eq!(s.key(), "different_random_key");
    assert_eq!(s.host(), "0.0.0.0");
    assert_eq!(*s.port(), 9999);
}

#[test]
fn config_holds_peers_and_server() {
    let peer = Peer::new("a".to_string(), 1, "k".to_string(), "n".to_string());
    let c = Config::new(Some(vec![peer]), None);
    assert_eq!(c.peers().as_ref().map(|v| v.len()), Some(1));
    assert!(c.server().is_none());
    let empty = Config::new(None, Some(Server::new("h".to_string(), 2, "k".to_string(), 3, 4)));
    assert!(empty.peers().is_none());
    assert!(empty.server().is_some());
}

#[test]
fn config_path_prefers_the_argument() {
    assert_eq!(config_path(Some("other.json".to_string())), "other.json");
    assert_eq!(config_path(None), "config.json");
}
