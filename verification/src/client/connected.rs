//! A link over which the handshake has completed.

use super::{Connection, ConnectionView, NotConnected, Peer, PeerView};
use vstd::prelude::*;

verus! {

/// The bytes of one ping: the letter `P`.
pub open spec fn ping_frame() -> Seq<u8> {
    seq![0x50u8]
}

/// The bytes a connected client writes as one ping.
pub fn ping_bytes() -> (b: Vec<u8>)
    ensures
        b@ == ping_frame(),
{
    let b: Vec<u8> = vec![0x50u8];
    assert(b@ =~= ping_frame());
    b
}

/// A client that has completed the handshake with its server.
#[derive(Debug)]
pub struct Connected {
    pub peer: Peer,
}

impl View for Connected {
    type V = PeerView;

    open spec fn view(&self) -> PeerView {
        self.peer@
    }
}

impl Connected {
    /// The state after one ping: still connected when the ping bytes could be
    /// written (`sent`), not connected otherwise; the peer is kept either way.
    pub fn ping(self, sent: bool) -> (c: Connection)
        ensures
            sent ==> c@ == ConnectionView::Connected(self@),
            !sent ==> c@ == ConnectionView::NotConnected(self@),
    {
        if sent {
            self.into_connection()
        } else {
            self.not_connected().into_connection()
        }
    }

    /// The same peer, no longer connected.
    pub fn not_connected(self) -> (n: NotConnected)
        ensures
            n@ == self@,
    {
        NotConnected { peer: self.peer }
    }

    pub fn into_connection(self) -> (c: Connection)
        ensures
            c@ == ConnectionView::Connected(self@),
    {
        Connection::Connected(self)
    }
}

} // verus!
