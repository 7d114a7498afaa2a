//! A plain client that is not (or no longer) connected to its server.

use super::{Connected, Connection, ConnectionView, Peer, PeerView};
use vstd::prelude::*;
use vstd::slice::slice_to_vec;

verus! {

/// A plain client that has yet to dial its server.
#[derive(Debug)]
pub struct NotConnected {
    pub peer: Peer,
}

impl View for NotConnected {
    type V = PeerView;

    open spec fn view(&self) -> PeerView {
        self.peer@
    }
}

impl NotConnected {
    pub fn new(peer: Peer) -> (n: NotConnected)
        ensures
            n@ == peer@,
    {
        NotConnected { peer }
    }

    pub fn into_connection(self) -> (c: Connection)
        ensures
            c@ == ConnectionView::NotConnected(self@),
    {
        Connection::NotConnected(self)
    }

    /// The state after dialling the peer's `host:port`: when the connection
    /// `opened`, the client is connected and writes `key` (whether that write
    /// succeeds is not looked at); otherwise it stays not connected and writes
    /// nothing.
    pub fn connect(self, key: &[u8], opened: bool) -> (r: (Connection, Option<Vec<u8>>))
        ensures
            opened ==> r.0@ == ConnectionView::Connected(self@) && (r.1 matches Some(k) && k@ == key@),
            !opened ==> r.0@ == ConnectionView::NotConnected(self@) && r.1 is None,
    {
        if opened {
            (Connected { peer: self.peer }.into_connection(), Some(slice_to_vec(key)))
        } else {
            (self.into_connection(), None)
        }
    }
}

} // verus!
