//! A client that is not (or no longer) connected to its server.

use super::handshake::{handshake_start, Handshake, HandshakeAction, HandshakeStage};
use super::{Connection, ConnectionView, Peer, PeerView};
use crate::wire::{name_frame, name_frame_bytes, reply_is_yes};
use vstd::prelude::*;
use vstd::slice::slice_to_vec;

verus! {

/// Whether the byte read back after sending the key says that the server
/// accepted it.
pub fn read_bool(buff: &[u8]) -> (b: bool)
    ensures
        b == reply_is_yes(buff@),
{
    let r = buff.len() == 1 && buff[0] == 0x31u8;
    assert(r == reply_is_yes(buff@)) by {
        if buff@.len() == 1 && buff@[0] == 0x31u8 {
            assert(buff@ =~= seq![0x31u8]);
        }
    }
    r
}

/// The number a server sends as one little-endian byte.
pub fn read_u8(buff: [u8; 1]) -> (v: u8)
    ensures
        v == buff@[0],
{
    buff[0]
}

/// A client that has yet to complete the handshake with its server.
#[derive(Debug)]
pub struct NotConnected {
    pub peer: Peer,
}

impl View for NotConnected {
    type V = PeerView;

    open spec fn view(&self) -> PeerView {
        self.peer@
    }
}

impl NotConnected {
    pub fn new(peer: Peer) -> (n: NotConnected)
        ensures
            n@ == peer@,
    {
        NotConnected { peer }
    }

    pub fn into_connection(self) -> (c: Connection)
        ensures
            c@ == ConnectionView::NotConnected(self@),
    {
        Connection::NotConnected(self)
    }

    /// The frame in which the client sends its name.
    pub fn name_frame(&self) -> (frame: Vec<u8>)
        ensures
            frame@ == name_frame(self@.name),
    {
        name_frame_bytes(self.peer.name())
    }

    /// Begins the handshake with `key`: the first action dials the peer's
    /// address.
    pub fn connect(self, key: &[u8]) -> (a: HandshakeAction)
        ensures
            a@ == handshake_start(self@, key@),
    {
        let uri = self.peer.to_uri();
        let handshake = Handshake { peer: self.peer, key: slice_to_vec(key), stage: HandshakeStage::Dialing };
        HandshakeAction::Dial(handshake, uri)
    }
}

} // verus!
