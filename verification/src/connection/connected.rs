//! A plain client that has dialled its server and written the key.

use super::{Connection, ConnectionView, NotConnected, Peer, PeerView};
use vstd::prelude::*;

verus! {

/// The bytes of one ping: `PING`.
pub open spec fn ping_frame() -> Seq<u8> {
    seq![0x50u8, 0x49u8, 0x4eu8, 0x47u8]
}

/// The bytes a connected plain client writes as one ping, and that a server
/// expects to read.
pub fn ping_bytes() -> (b: Vec<u8>)
    ensures
        b@ == ping_frame(),
{
    let b: Vec<u8> = vec![0x50u8, 0x49u8, 0x4eu8, 0x47u8];
    assert(b@ =~= ping_frame());
    b
}

/// A plain client that has dialled its server and written the key.
#[derive(Debug)]
pub struct Connected {
    pub peer: Peer,
}

impl View for Connected {
    type V = PeerView;

    open spec fn view(&self) -> PeerView {
        self.peer@
    }
}

impl Connected {
    /// The state after one ping: still connected when the ping bytes could be
    /// written (`sent`), not connected otherwise; the peer is kept either way.
    pub fn ping(self, sent: bool) -> (c: Connection)
        ensures
            sent ==> c@ == ConnectionView::Connected(self@),
            !sent ==> c@ == ConnectionView::NotConnected(self@),
    {
        if sent {
            self.into_connection()
        } else {
            self.not_connected().into_connection()
        }
    }

    /// The same peer, no longer connected.
    pub fn not_connected(self) -> (n: NotConnected)
        ensures
            n@ == self@,
    {
        NotConnected { peer: self.peer }
    }

    pub fn into_connection(self) -> (c: Connection)
        ensures
            c@ == ConnectionView::Connected(self@),
    {
        Connection::Connected(self)
    }
}

} // verus!
