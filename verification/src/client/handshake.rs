//! The handshake by which a client connects, as a machine that decides each
//! next action from the last outcome of the network.
//!
//! The client dials the server, writes the key and reads one byte; a `1`
//! means the key was accepted, and the client then writes its name frame and
//! reads one more byte: how many seconds to wait between pings. Any failure to
//! dial, write or read, and any other reply to the key, leaves the client not
//! connected.

use super::not_connected::read_bool;
use super::{Connected, Connection, ConnectionView, NotConnected, Peer, PeerView};
use crate::text::host_port;
use crate::wire::{name_frame, name_frame_bytes, reply_is_yes};
use vstd::prelude::*;

verus! {

/// How far a handshake has come.
#[derive(Clone, Copy, Debug, PartialEq, Eq)]
pub enum HandshakeStage {
    /// The connection to the server is being opened.
    Dialing,
    /// The key was written; the server's one-byte answer is awaited.
    AwaitingKeyReply,
    /// The name was written; the waiting time is awaited.
    AwaitingWaitSeconds,
}

/// What the network did with the last action.
#[derive(Clone, Copy, Debug, PartialEq, Eq)]
pub enum HandshakeEvent {
    /// Dialling, writing or reading failed.
    Failed,
    /// The connection was opened.
    Opened,
    /// The bytes were written and this byte was read back.
    Received(u8),
}

/// A handshake in progress, as plain values.
pub struct HandshakeView {
    pub peer: PeerView,
    pub key: Seq<u8>,
    pub stage: HandshakeStage,
}

/// A handshake in progress with one server.
#[derive(Debug)]
pub struct Handshake {
    pub peer: Peer,
    pub key: Vec<u8>,
    pub stage: HandshakeStage,
}

impl View for Handshake {
    type V = HandshakeView;

    open spec fn view(&self) -> HandshakeView {
        HandshakeView { peer: self.peer@, key: self.key@, stage: self.stage }
    }
}

/// What to do next, as plain values.
pub enum HandshakeActionView {
    Dial(HandshakeView, Seq<char>),
    SendThenRead(HandshakeView, Seq<u8>),
    Finish(ConnectionView),
}

/// What the client does next.
#[derive(Debug)]
pub enum HandshakeAction {
    /// Open a TCP connection to this address, then report [`HandshakeEvent::Opened`]
    /// or [`HandshakeEvent::Failed`] to the handshake.
    Dial(Handshake, String),
    /// Write these bytes, read one byte, and report it (or the failure) to
    /// the handshake.
    SendThenRead(Handshake, Vec<u8>),
    /// The handshake is over, in this state.
    Finish(Connection),
}

impl View for HandshakeAction {
    type V = HandshakeActionView;

    open spec fn view(&self) -> HandshakeActionView {
        match self {
            HandshakeAction::Dial(h, uri) => HandshakeActionView::Dial(h@, uri@),
            HandshakeAction::SendThenRead(h, bytes) => HandshakeActionView::SendThenRead(h@, bytes@),
            HandshakeAction::Finish(c) => HandshakeActionView::Finish(c@),
        }
    }
}

/// The first action of a handshake with `peer`: dial its `host:port`.
pub open spec fn handshake_start(peer: PeerView, key: Seq<u8>) -> HandshakeActionView {
    HandshakeActionView::Dial(
        HandshakeView { peer, key, stage: HandshakeStage::Dialing },
        host_port(peer.host, peer.port as nat),
    )
}

/// The action that follows `event` in handshake `h`. An event that the stage
/// does not expect (a byte read before the connection opened, an opening after
/// it) ends the handshake not connected, as a failure does.
pub open spec fn handshake_step(h: HandshakeView, event: HandshakeEvent) -> HandshakeActionView {
    let give_up = HandshakeActionView::Finish(ConnectionView::NotConnected(h.peer));
    match event {
        HandshakeEvent::Failed => give_up,
        HandshakeEvent::Opened => match h.stage {
            HandshakeStage::Dialing => HandshakeActionView::SendThenRead(
                HandshakeView { peer: h.peer, key: h.key, stage: HandshakeStage::AwaitingKeyReply },
                h.key,
            ),
            _ => give_up,
        },
        HandshakeEvent::Received(b) => match h.stage {
            HandshakeStage::Dialing => give_up,
            HandshakeStage::AwaitingKeyReply => if reply_is_yes(seq![b]) {
                HandshakeActionView::SendThenRead(
                    HandshakeView { peer: h.peer, key: h.key, stage: HandshakeStage::AwaitingWaitSeconds },
                    name_frame(h.peer.name),
                )
            } else {
                give_up
            },
            HandshakeStage::AwaitingWaitSeconds => HandshakeActionView::Finish(
                ConnectionView::Connected(PeerView { wait_seconds: b, ..h.peer }),
            ),
        },
    }
}

impl Handshake {
    /// The next action after `event`.
    pub fn step(self, event: HandshakeEvent) -> (a: HandshakeAction)
        ensures
            a@ == handshake_step(self@, event),
    {
        let ghost h = self@;
        let peer = self.peer;
        let key = self.key;
        let stage = self.stage;
        match event {
            HandshakeEvent::Failed => HandshakeAction::Finish(NotConnected::new(peer).into_connection()),
            HandshakeEvent::Opened => match stage {
                HandshakeStage::Dialing => {
                    let frame = key.clone();
                    assert(frame@ =~= key@);
                    HandshakeAction::SendThenRead(
                        Handshake { peer, key, stage: HandshakeStage::AwaitingKeyReply },
                        frame,
                    )
                },
                _ => HandshakeAction::Finish(NotConnected::new(peer).into_connection()),
            },
            HandshakeEvent::Received(b) => match stage {
                HandshakeStage::Dialing => HandshakeAction::Finish(NotConnected::new(peer).into_connection()),
                HandshakeStage::AwaitingKeyReply => {
                    let reply: [u8; 1] = [b];
                    assert(reply@ =~= seq![b]);
                    if read_bool(&reply) {
                        let frame = name_frame_bytes(peer.name());
                        HandshakeAction::SendThenRead(
                            Handshake { peer, key, stage: HandshakeStage::AwaitingWaitSeconds },
                            frame,
                        )
                    } else {
                        HandshakeAction::Finish(NotConnected::new(peer).into_connection())
                    }
                },
                HandshakeStage::AwaitingWaitSeconds => {
                    let connected = Connected { peer: peer.with_wait_seconds(b) };
                    HandshakeAction::Finish(connected.into_connection())
                },
            },
        }
    }
}

/// The action reached from `action` after the network reports `events` in
/// turn; events that arrive after the handshake has finished change nothing.
pub open spec fn handshake_run(action: HandshakeActionView, events: Seq<HandshakeEvent>) -> HandshakeActionView
    decreases events.len(),
{
    if events.len() == 0 {
        action
    } else {
        match action {
            HandshakeActionView::Finish(_) => action,
            HandshakeActionView::Dial(h, _) => handshake_run(handshake_step(h, events[0]), events.drop_first()),
            HandshakeActionView::SendThenRead(h, _) => handshake_run(
                handshake_step(h, events[0]),
                events.drop_first(),
            ),
        }
    }
}

/// The peer that an action is about.
pub open spec fn action_peer(action: HandshakeActionView) -> PeerView {
    match action {
        HandshakeActionView::Dial(h, _) => h.peer,
        HandshakeActionView::SendThenRead(h, _) => h.peer,
        HandshakeActionView::Finish(c) => c.peer(),
    }
}

/// Whether two views are of the same server and client identity: they may
/// differ only in the waiting time.
pub open spec fn same_identity(a: PeerView, b: PeerView) -> bool {
    &&& a.host == b.host
    &&& a.port == b.port
    &&& a.key == b.key
    &&& a.name == b.name
}

/// A handshake that goes through: the connection opens, the server answers
/// the key with `1` and then sends the waiting time `w`. The client writes the
/// key, then its name frame, and ends connected to the same peer, which now
/// waits `w` seconds.
pub proof fn lemma_handshake_completes(peer: PeerView, key: Seq<u8>, w: u8)
    ensures
        ({
            let h0 = HandshakeView { peer, key, stage: HandshakeStage::Dialing };
            let h1 = HandshakeView { peer, key, stage: HandshakeStage::AwaitingKeyReply };
            let h2 = HandshakeView { peer, key, stage: HandshakeStage::AwaitingWaitSeconds };
            &&& handshake_start(peer, key) == HandshakeActionView::Dial(h0, host_port(peer.host, peer.port as nat))
            &&& handshake_step(h0, HandshakeEvent::Opened) == HandshakeActionView::SendThenRead(h1, key)
            &&& handshake_step(h1, HandshakeEvent::Received(0x31u8)) == HandshakeActionView::SendThenRead(
                h2,
                name_frame(peer.name),
            )
            &&& handshake_run(
                handshake_start(peer, key),
                seq![HandshakeEvent::Opened, HandshakeEvent::Received(0x31u8), HandshakeEvent::Received(w)],
            ) == HandshakeActionView::Finish(ConnectionView::Connected(PeerView { wait_seconds: w, ..peer }))
        }),
{
    let events = seq![HandshakeEvent::Opened, HandshakeEvent::Received(0x31u8), HandshakeEvent::Received(w)];
    assert(events.drop_first().drop_first().drop_first() =~= Seq::<HandshakeEvent>::empty());
    assert(events.drop_first()[0] == HandshakeEvent::Received(0x31u8));
    assert(events.drop_first().drop_first()[0] == HandshakeEvent::Received(w));
    reveal_with_fuel(handshake_run, 4);
}

/// Once finished, a handshake ignores whatever else the network reports.
proof fn lemma_run_after_finish(c: ConnectionView, events: Seq<HandshakeEvent>)
    ensures
        handshake_run(HandshakeActionView::Finish(c), events) == HandshakeActionView::Finish(c),
{
}

/// A client ends a handshake connected only when the connection opened, the
/// server answered the key with `1`, and a third byte was read: that byte is
/// then the waiting time, and the peer is otherwise the one dialled.
pub proof fn lemma_connected_only_after_accepted_key(peer: PeerView, key: Seq<u8>, events: Seq<HandshakeEvent>)
    requires
        handshake_run(handshake_start(peer, key), events) is Finish,
        handshake_run(handshake_start(peer, key), events)->Finish_0 is Connected,
    ensures
        events.len() >= 3,
        events[0] == HandshakeEvent::Opened,
        events[1] == HandshakeEvent::Received(0x31u8),
        events[2] is Received,
        handshake_run(handshake_start(peer, key), events) == HandshakeActionView::Finish(
            ConnectionView::Connected(PeerView { wait_seconds: events[2]->Received_0, ..peer }),
        ),
{
    let h0 = HandshakeView { peer, key, stage: HandshakeStage::Dialing };
    let h1 = HandshakeView { peer, key, stage: HandshakeStage::AwaitingKeyReply };
    let h2 = HandshakeView { peer, key, stage: HandshakeStage::AwaitingWaitSeconds };
    let give_up = ConnectionView::NotConnected(peer);
    let start = handshake_start(peer, key);
    let result = handshake_run(start, events);
    if events.len() == 0 {
        assert(result == start);
        assert(false);
    }
    let e1 = events.drop_first();
    assert(result == handshake_run(handshake_step(h0, events[0]), e1));
    if events[0] != HandshakeEvent::Opened {
        assert(handshake_step(h0, events[0]) == HandshakeActionView::Finish(give_up));
        lemma_run_after_finish(give_up, e1);
        assert(false);
    }
    let a1 = HandshakeActionView::SendThenRead(h1, key);
    assert(handshake_step(h0, events[0]) == a1);
    if e1.len() == 0 {
        assert(result == a1);
        assert(false);
    }
    let e2 = e1.drop_first();
    assert(e1[0] == events[1]);
    assert(result == handshake_run(handshake_step(h1, events[1]), e2));
    if events[1] != HandshakeEvent::Received(0x31u8) {
        match events[1] {
            HandshakeEvent::Received(b) => {
                assert(b != 0x31u8);
                assert(!reply_is_yes(seq![b])) by {
                    if seq![b] == seq![0x31u8] {
                        assert(seq![b][0] == seq![0x31u8][0]);
                    }
                }
            },
            _ => {},
        }
        assert(handshake_step(h1, events[1]) == HandshakeActionView::Finish(give_up));
        lemma_run_after_finish(give_up, e2);
        assert(false);
    }
    let a2 = HandshakeActionView::SendThenRead(h2, name_frame(peer.name));
    assert(handshake_step(h1, events[1]) == a2);
    if e2.len() == 0 {
        assert(result == a2);
        assert(false);
    }
    let e3 = e2.drop_first();
    assert(e2[0] == events[2]);
    assert(result == handshake_run(handshake_step(h2, events[2]), e3));
    match events[2] {
        HandshakeEvent::Received(w) => {
            let c = ConnectionView::Connected(PeerView { wait_seconds: w, ..peer });
            assert(handshake_step(h2, events[2]) == HandshakeActionView::Finish(c));
            lemma_run_after_finish(c, e3);
        },
        _ => {
            assert(handshake_step(h2, events[2]) == HandshakeActionView::Finish(give_up));
            lemma_run_after_finish(give_up, e3);
            assert(false);
        },
    }
}

/// Every handshake has finished once the network has reported three events.
pub proof fn lemma_handshake_ends_within_three_events(peer: PeerView, key: Seq<u8>, events: Seq<HandshakeEvent>)
    requires
        events.len() >= 3,
    ensures
        handshake_run(handshake_start(peer, key), events) is Finish,
{
    reveal_with_fuel(handshake_run, 4);
    let e1 = events.drop_first();
    let e2 = e1.drop_first();
    assert(e1[0] == events[1]);
    assert(e2[0] == events[2]);
}

/// Whatever the network reports, a handshake stays with the peer it dialled:
/// host, port, key and name never change; only the waiting time may.
pub proof fn lemma_handshake_keeps_identity(peer: PeerView, key: Seq<u8>, events: Seq<HandshakeEvent>)
    ensures
        same_identity(action_peer(handshake_run(handshake_start(peer, key), events)), peer),
{
    reveal_with_fuel(handshake_run, 4);
    let e1 = events.drop_first();
    let e2 = e1.drop_first();
    if events.len() >= 2 {
        assert(e1[0] == events[1]);
    }
    if events.len() >= 3 {
        assert(e2[0] == events[2]);
    }
}

} // verus!
