//! What a configuration file holds: the servers to connect to as a client,
//! and the settings of this instance's own server, if it runs one.

use crate::client::{Peer, PeerView};
use crate::text::{host_port, host_port_string};
use vstd::prelude::*;
use vstd::slice::slice_to_vec;
use vstd::utf8::encode_utf8;

verus! {

/// What a [`Server`] holds, as plain values.
pub struct ServerView {
    pub host: Seq<char>,
    pub port: usize,
    pub key: Seq<char>,
    pub read_timeout: u64,
    pub wait_seconds: u8,
}

/// The settings of this instance's server: where it listens, the key clients
/// must send, how many seconds a read may block, and how many seconds clients
/// should wait between pings.
#[derive(Debug, Clone)]
pub struct Server {
    host: String,
    port: usize,
    key: String,
    read_timeout: u64,
    wait_seconds: u8,
}

impl View for Server {
    type V = ServerView;

    closed spec fn view(&self) -> ServerView {
        ServerView {
            host: self.host@,
            port: self.port,
            key: self.key@,
            read_timeout: self.read_timeout,
            wait_seconds: self.wait_seconds,
        }
    }
}

impl Server {
    pub fn new(host: String, port: usize, key: String, read_timeout: u64, wait_seconds: u8) -> (s: Server)
        ensures
            s@ == (ServerView { host: host@, port, key: key@, read_timeout, wait_seconds }),
    {
        Server { host, port, key, read_timeout, wait_seconds }
    }

    pub fn host(&self) -> (r: &String)
        ensures
            r@ == self@.host,
    {
        &self.host
    }

    pub fn port(&self) -> (r: &usize)
        ensures
            *r == self@.port,
    {
        &self.port
    }

    pub fn key(&self) -> (r: &String)
        ensures
            r@ == self@.key,
    {
        &self.key
    }

    pub fn read_timeout(&self) -> (r: &u64)
        ensures
            *r == self@.read_timeout,
    {
        &self.read_timeout
    }

    pub fn wait_seconds(&self) -> (r: &u8)
        ensures
            *r == self@.wait_seconds,
    {
        &self.wait_seconds
    }

    /// The address to listen on: `host:port`.
    pub fn host_uri(&self) -> (r: String)
        ensures
            r@ == host_port(self@.host, self@.port as nat),
    {
        host_port_string(&self.host, self.port)
    }

    /// The key as the bytes a client must send: its UTF-8 encoding.
    pub fn key_bytes(&self) -> (b: Vec<u8>)
        ensures
            b@ == encode_utf8(self@.key),
    {
        slice_to_vec(self.key.as_str().as_bytes())
    }
}

/// What a [`Config`] holds, as plain values.
pub struct ConfigView {
    pub peers: Option<Seq<PeerView>>,
    pub server: Option<ServerView>,
}

/// The views of a list of peers.
pub open spec fn peer_views(peers: Seq<Peer>) -> Seq<PeerView> {
    peers.map_values(|p: Peer| p@)
}

/// A whole configuration.
#[derive(Debug)]
pub struct Config {
    peers: Option<Vec<Peer>>,
    server: Option<Server>,
}

impl View for Config {
    type V = ConfigView;

    closed spec fn view(&self) -> ConfigView {
        ConfigView {
            peers: match self.peers {
                Some(v) => Some(peer_views(v@)),
                None => None,
            },
            server: match self.server {
                Some(s) => Some(s@),
                None => None,
            },
        }
    }
}

impl Config {
    pub fn new(peers: Option<Vec<Peer>>, server: Option<Server>) -> (c: Config)
        ensures
            c@.peers == (match peers {
                Some(v) => Some(peer_views(v@)),
                None => None,
            }),
            c@.server == (match server {
                Some(s) => Some(s@),
                None => None::<ServerView>,
            }),
    {
        Config { peers, server }
    }

    /// The servers to connect to, if any are configured.
    pub fn peers(&self) -> (r: &Option<Vec<Peer>>)
        ensures
            self@.peers == (match *r {
                Some(v) => Some(peer_views(v@)),
                None => None,
            }),
    {
        &self.peers
    }

    /// This instance's server, if it runs one.
    pub fn server(&self) -> (r: &Option<Server>)
        ensures
            self@.server == (match *r {
                Some(s) => Some(s@),
                None => None::<ServerView>,
            }),
    {
        &self.server
    }
}

/// The path of the configuration file: the first command-line argument when
/// there is one, `config.json` otherwise.
pub fn config_path(first_argument: Option<String>) -> (path: String)
    ensures
        first_argument matches Some(a) ==> path@ == a@,
        first_argument is None ==> path@ == "config.json"@,
{
    match first_argument {
        Some(x) => x,
        None => String::from_str("config.json"),
    }
}

} // verus!
