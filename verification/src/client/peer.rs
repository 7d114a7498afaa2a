//! The server a client connects to, as the configuration names it.

use crate::text::{host_port, host_port_string};
use vstd::prelude::*;
use vstd::slice::slice_to_vec;
use vstd::utf8::encode_utf8;

verus! {

/// What a [`Peer`] holds, as plain values.
pub struct PeerView {
    pub host: Seq<char>,
    pub port: usize,
    pub wait_seconds: u8,
    pub key: Seq<char>,
    pub name: Seq<char>,
}

/// A server to connect to: where it listens, the key it expects, the name
/// under which this client introduces itself, and how many seconds to wait
/// between two attempts or pings.
#[derive(Debug, Clone)]
pub struct Peer {
    host: String,
    port: usize,
    wait_seconds: u8,
    key: String,
    name: String,
}

impl View for Peer {
    type V = PeerView;

    closed spec fn view(&self) -> PeerView {
        PeerView {
            host: self.host@,
            port: self.port,
            wait_seconds: self.wait_seconds,
            key: self.key@,
            name: self.name@,
        }
    }
}

/// The number of seconds a client waits between attempts before a server has
/// told it otherwise.
pub fn thirty() -> (r: u8)
    ensures
        r == 30,
{
    30
}

impl Peer {
    /// A peer as the configuration gives it; its waiting time is the default,
    /// [`thirty`] seconds, until a server sets another.
    pub fn new(host: String, port: usize, key: String, name: String) -> (p: Peer)
        ensures
            p@ == (PeerView { host: host@, port, wait_seconds: 30, key: key@, name: name@ }),
    {
        Peer { host, port, wait_seconds: thirty(), key, name }
    }

    pub fn host(&self) -> (r: &String)
        ensures
            r@ == self@.host,
    {
        &self.host
    }

    pub fn port(&self) -> (r: &usize)
        ensures
            *r == self@.port,
    {
        &self.port
    }

    pub fn wait_seconds(&self) -> (r: &u8)
        ensures
            *r == self@.wait_seconds,
    {
        &self.wait_seconds
    }

    pub fn key(&self) -> (r: &String)
        ensures
            r@ == self@.key,
    {
        &self.key
    }

    pub fn name(&self) -> (r: &String)
        ensures
            r@ == self@.name,
    {
        &self.name
    }

    /// The key as the bytes that are sent: its UTF-8 encoding.
    pub fn key_bytes(&self) -> (b: Vec<u8>)
        ensures
            b@ == encode_utf8(self@.key),
    {
        slice_to_vec(self.key.as_str().as_bytes())
    }

    /// The same peer with another waiting time.
    pub fn with_wait_seconds(self, wait_seconds: u8) -> (p: Peer)
        ensures
            p@ == (PeerView { wait_seconds, ..self@ }),
    {
        Peer { wait_seconds, ..self }
    }

    /// The address to dial: `host:port`.
    pub fn to_uri(&self) -> (r: String)
        ensures
            r@ == host_port(self@.host, self@.port as nat),
    {
        host_port_string(&self.host, self.port)
    }
}

} // verus!
