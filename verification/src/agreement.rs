//! What a client and a server agree on: the key, the answer to it, the name
//! frame and the pings, stated over both sides' machines.

use crate::client::handshake::{handshake_step, HandshakeActionView, HandshakeEvent, HandshakeStage, HandshakeView};
use crate::client::PeerView;
use crate::connection::ping_frame;
use crate::server::{
    key_verdict, session_run, session_start, session_step, SessionAction, SessionState, SessionView, TRUE,
};
use crate::wire::{name_frame, reply_is_yes, NAME_FRAME_LEN};
use vstd::prelude::*;
use vstd::utf8::encode_utf8;

verus! {

/// A client whose key is the server's key is accepted: the server answers `1`
/// and goes on to read a name frame, and the client reads that answer as
/// acceptance and sends its name frame next.
pub proof fn lemma_shared_key_is_accepted(server_key: Seq<char>, peer: PeerView)
    requires
        peer.key == server_key,
    ensures
        session_step(session_start(encode_utf8(server_key)).0, Some(encode_utf8(peer.key))) == (
            SessionView { key: encode_utf8(server_key), state: SessionState::AwaitingName },
            SessionAction::ReplyThenRead(TRUE, NAME_FRAME_LEN),
        ),
        handshake_step(
            HandshakeView { peer, key: encode_utf8(peer.key), stage: HandshakeStage::AwaitingKeyReply },
            HandshakeEvent::Received(TRUE),
        ) == HandshakeActionView::SendThenRead(
            HandshakeView { peer, key: encode_utf8(peer.key), stage: HandshakeStage::AwaitingWaitSeconds },
            name_frame(peer.name),
        ),
{
}

/// Whatever a server's key check decides, the byte it answers with reads as
/// acceptance at the client: a wrong key is answered with `1` too.
pub proof fn lemma_every_key_reply_reads_as_yes(key: Seq<u8>, received: Option<Seq<u8>>)
    ensures
        match key_verdict(key, received) {
            Ok(reply) => reply_is_yes(seq![reply]),
            Err(reply) => reply_is_yes(seq![reply]),
        },
{
}

/// The reads of a listening server that bring `PING` each time.
pub open spec fn pings(n: nat) -> Seq<Option<Seq<u8>>> {
    Seq::new(n, |i: int| Some(ping_frame()))
}

/// A server that listens to a plain client goes on listening through any
/// number of its pings.
pub proof fn lemma_pings_keep_server_listening(key: Seq<u8>, n: nat)
    ensures
        session_run(SessionView { key, state: SessionState::Listening }, pings(n)) == (SessionView {
            key,
            state: SessionState::Listening,
        }),
    decreases n,
{
    if n > 0 {
        assert(pings(n)[0] == Some(ping_frame()));
        assert(pings(n).drop_first() =~= pings((n - 1) as nat));
        lemma_pings_keep_server_listening(key, (n - 1) as nat);
    }
}

/// What each kind of client writes as one ping: the handshaking client the
/// single letter `P`, the plain client the four letters `PING`, which is also
/// what a listening server expects.
pub proof fn lemma_ping_frames()
    ensures
        crate::client::ping_frame() == seq![0x50u8],
        ping_frame() == seq![0x50u8, 0x49u8, 0x4eu8, 0x47u8],
{
}

} // verus!
