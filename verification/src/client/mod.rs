//! The client side of the handshake protocol: a client dials a server, sends
//! the shared key, reads whether it was accepted, sends its name and reads how
//! many seconds to wait between pings; once connected it pings the server
//! after each wait and falls back to dialling when a ping cannot be sent.

pub mod connected;
pub mod handshake;
pub mod not_connected;
pub mod peer;

pub use connected::{ping_bytes, ping_frame, Connected};
pub use handshake::{Handshake, HandshakeAction, HandshakeEvent, HandshakeStage};
pub use not_connected::NotConnected;
pub use peer::{thirty, Peer, PeerView};

use handshake::{handshake_start, HandshakeActionView};
use vstd::prelude::*;

verus! {

/// The state of a client's link to one server, as plain values.
pub enum ConnectionView {
    NotConnected(PeerView),
    Connected(PeerView),
}

impl ConnectionView {
    /// The server that the link is with, whatever its state.
    pub open spec fn peer(self) -> PeerView {
        match self {
            ConnectionView::NotConnected(p) => p,
            ConnectionView::Connected(p) => p,
        }
    }
}

/// The state of a client's link to one server.
#[derive(Debug)]
pub enum Connection {
    NotConnected(NotConnected),
    Connected(Connected),
}

impl View for Connection {
    type V = ConnectionView;

    open spec fn view(&self) -> ConnectionView {
        match self {
            Connection::NotConnected(nc) => ConnectionView::NotConnected(nc@),
            Connection::Connected(c) => ConnectionView::Connected(c@),
        }
    }
}

impl Connection {
    /// The server that the link is with.
    pub fn peer(&self) -> (p: &Peer)
        ensures
            p@ == self@.peer(),
    {
        match self {
            Connection::NotConnected(nc) => &nc.peer,
            Connection::Connected(c) => &c.peer,
        }
    }

    /// How many seconds to wait before the next attempt or ping.
    pub fn wait_seconds(&self) -> (w: u8)
        ensures
            w == self@.peer().wait_seconds,
    {
        *self.peer().wait_seconds()
    }
}

/// The next attempt on a link, as plain values.
pub enum AttemptView {
    Handshake(HandshakeActionView),
    Ping(PeerView, Seq<u8>),
}

/// What a client does next on a link: begin a handshake when it is not
/// connected, ping when it is.
#[derive(Debug)]
pub enum Attempt {
    /// Run the handshake that begins with this action.
    Handshake(HandshakeAction),
    /// Write these bytes to the server and report to [`Connected::ping`]
    /// whether that worked.
    Ping(Connected, Vec<u8>),
}

impl View for Attempt {
    type V = AttemptView;

    open spec fn view(&self) -> AttemptView {
        match self {
            Attempt::Handshake(a) => AttemptView::Handshake(a@),
            Attempt::Ping(c, bytes) => AttemptView::Ping(c@, bytes@),
        }
    }
}

impl Connection {
    /// The next attempt on this link, `key` being the bytes the server
    /// expects.
    pub fn next_attempt(self, key: &[u8]) -> (a: Attempt)
        ensures
            a@ == (match self@ {
                ConnectionView::NotConnected(p) => AttemptView::Handshake(handshake_start(p, key@)),
                ConnectionView::Connected(p) => AttemptView::Ping(p, ping_frame()),
            }),
    {
        match self {
            Connection::NotConnected(nc) => Attempt::Handshake(nc.connect(key)),
            Connection::Connected(c) => Attempt::Ping(c, ping_bytes()),
        }
    }
}

} // verus!
