//! A plain client: it dials its server, writes the key without waiting for an
//! answer, and from then on pings with `PING` after each wait, falling back to
//! dialling when a ping cannot be written.

pub mod connected;
pub mod not_connected;
pub mod peer;

pub use connected::{ping_bytes, ping_frame, Connected};
pub use not_connected::NotConnected;
pub use peer::{Peer, PeerView};

use crate::text::host_port;
use vstd::prelude::*;

verus! {

/// The state of a plain client's link to one server, as plain values.
pub enum ConnectionView {
    NotConnected(PeerView),
    Connected(PeerView),
}

impl ConnectionView {
    /// The server that the link is with, whatever its state.
    pub open spec fn peer(self) -> PeerView {
        match self {
            ConnectionView::NotConnected(p) => p,
            ConnectionView::Connected(p) => p,
        }
    }
}

/// The state of a plain client's link to one server.
#[derive(Debug)]
pub enum Connection {
    NotConnected(NotConnected),
    Connected(Connected),
}

impl View for Connection {
    type V = ConnectionView;

    open spec fn view(&self) -> ConnectionView {
        match self {
            Connection::NotConnected(nc) => ConnectionView::NotConnected(nc@),
            Connection::Connected(c) => ConnectionView::Connected(c@),
        }
    }
}

impl Connection {
    /// The server that the link is with.
    pub fn peer(&self) -> (p: &Peer)
        ensures
            p@ == self@.peer(),
    {
        match self {
            Connection::NotConnected(nc) => &nc.peer,
            Connection::Connected(c) => &c.peer,
        }
    }

    /// How many seconds to wait before the next attempt or ping.
    pub fn wait_seconds(&self) -> (w: u64)
        ensures
            w == self@.peer().wait_seconds,
    {
        *self.peer().wait_seconds()
    }
}

/// The next attempt on a link, as plain values.
pub enum AttemptView {
    Dial(PeerView, Seq<char>),
    Ping(PeerView, Seq<u8>),
}

/// What a plain client does next on a link: dial when it is not connected,
/// ping when it is.
#[derive(Debug)]
pub enum Attempt {
    /// Open a TCP connection to this address and report to
    /// [`NotConnected::connect`] whether that worked.
    Dial(NotConnected, String),
    /// Write these bytes to the server and report to [`Connected::ping`]
    /// whether that worked.
    Ping(Connected, Vec<u8>),
}

impl View for Attempt {
    type V = AttemptView;

    open spec fn view(&self) -> AttemptView {
        match self {
            Attempt::Dial(nc, uri) => AttemptView::Dial(nc@, uri@),
            Attempt::Ping(c, bytes) => AttemptView::Ping(c@, bytes@),
        }
    }
}

impl Connection {
    /// The next attempt on this link.
    pub fn next_attempt(self) -> (a: Attempt)
        ensures
            a@ == (match self@ {
                ConnectionView::NotConnected(p) => AttemptView::Dial(p, host_port(p.host, p.port as nat)),
                ConnectionView::Connected(p) => AttemptView::Ping(p, ping_frame()),
            }),
    {
        match self {
            Connection::NotConnected(nc) => {
                let uri = nc.peer.to_uri();
                Attempt::Dial(nc, uri)
            },
            Connection::Connected(c) => Attempt::Ping(c, ping_bytes()),
        }
    }
}

} // verus!
