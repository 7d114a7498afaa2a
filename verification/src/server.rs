//! The server side: for each accepted client it reads the key and answers,
//! then reads the client's name frame, then keeps reading pings until one is
//! not `PING` or a read fails.

use crate::connection::{ping_bytes, ping_frame};
use crate::wire::{bytes_equal, name_frame, utf8_string, NAME_FRAME_LEN};
use vstd::prelude::*;
use vstd::slice::slice_to_vec;
use vstd::utf8::{decode_utf8, encode_utf8, valid_utf8};

verus! {

/// The byte a server answers with when the key it read is right: `1`.
pub const TRUE: u8 = 0x31u8;

/// The byte a server answers with when the key it read is wrong or could not
/// be read. It is `1` as well, so a client cannot tell the two answers apart.
pub const FALSE: u8 = 0x31u8;

/// The bytes of a read that succeeded, or `None` for a failed read.
pub open spec fn read_view(received: Option<&[u8]>) -> Option<Seq<u8>> {
    match received {
        Some(b) => Some(b@),
        None => None,
    }
}

/// Whether a read brought exactly `expected`.
pub open spec fn read_is(received: Option<Seq<u8>>, expected: Seq<u8>) -> bool {
    received == Some(expected)
}

/// The server's verdict on the bytes read where the key should be: `Ok` with
/// the reply when they are the key, `Err` with the reply otherwise (also when
/// the read failed).
pub open spec fn key_verdict(key: Seq<u8>, received: Option<Seq<u8>>) -> Result<u8, u8> {
    if read_is(received, key) {
        Ok(TRUE)
    } else {
        Err(FALSE)
    }
}

/// Checks the key a client sent: `received` is the outcome of reading as many
/// bytes as `key` holds. The result carries the byte to answer with.
pub fn check_key(key: &[u8], received: Option<&[u8]>) -> (r: Result<u8, u8>)
    ensures
        r == key_verdict(key@, read_view(received)),
{
    match received {
        Some(sent_key) => {
            if !bytes_equal(sent_key, key) {
                Err(FALSE)
            } else {
                Ok(TRUE)
            }
        },
        None => Err(FALSE),
    }
}

/// Why a client's name could not be read.
#[derive(Clone, Copy, Debug, PartialEq, Eq)]
pub enum NameError {
    /// Reading the name frame failed.
    Io,
    /// The frame holds no zero byte to end the name.
    NoNull,
    /// The bytes before the first zero byte are not valid UTF-8.
    Utf8,
}

/// Whether `i` is the position of the first zero byte in `b`.
pub open spec fn first_zero_at(b: Seq<u8>, i: int) -> bool {
    &&& 0 <= i < b.len()
    &&& b[i] == 0
    &&& forall|j: int| 0 <= j < i ==> b[j] != 0
}

/// The name a name frame carries: the text of the bytes before its first zero
/// byte.
pub open spec fn name_in_frame(frame: Seq<u8>) -> Result<Seq<char>, NameError> {
    if exists|i: int| first_zero_at(frame, i) {
        let end = choose|i: int| first_zero_at(frame, i);
        if valid_utf8(frame.take(end)) {
            Ok(decode_utf8(frame.take(end)))
        } else {
            Err(NameError::Utf8)
        }
    } else {
        Err(NameError::NoNull)
    }
}

/// The name read from a client, or why there is none.
pub open spec fn name_read(received: Option<Seq<u8>>) -> Result<Seq<char>, NameError> {
    match received {
        Some(frame) => name_in_frame(frame),
        None => Err(NameError::Io),
    }
}

/// The first zero byte is where it is: no other position is the first.
proof fn lemma_first_zero_unique(b: Seq<u8>, i: int, k: int)
    requires
        first_zero_at(b, i),
        first_zero_at(b, k),
    ensures
        i == k,
{
}

/// Reads a client's name from the outcome of reading its name frame.
pub fn get_name(received: Option<&[u8]>) -> (r: Result<String, NameError>)
    ensures
        match r {
            Ok(s) => name_read(read_view(received)) == Ok::<Seq<char>, NameError>(s@),
            Err(e) => name_read(read_view(received)) == Err::<Seq<char>, NameError>(e),
        },
{
    let buff = match received {
        Some(b) => b,
        None => {
            return Err(NameError::Io);
        },
    };
    let mut i: usize = 0;
    while i < buff.len()
        invariant
            i <= buff@.len(),
            forall|j: int| 0 <= j < i ==> buff@[j] != 0,
        ensures
            i <= buff@.len(),
            forall|j: int| 0 <= j < i ==> buff@[j] != 0,
            i < buff@.len() ==> buff@[i as int] == 0,
        decreases buff@.len() - i,
    {
        if buff[i] == 0 {
            break;
        }
        i = i + 1;
    }
    if i == buff.len() {
        assert(!exists|k: int| first_zero_at(buff@, k));
        return Err(NameError::NoNull);
    }
    assert(first_zero_at(buff@, i as int));
    proof {
        let end = choose|k: int| first_zero_at(buff@, k);
        lemma_first_zero_unique(buff@, i as int, end);
    }
    let mut prefix: Vec<u8> = Vec::new();
    let mut j: usize = 0;
    while j < i
        invariant
            j <= i < buff@.len(),
            prefix@ =~= buff@.take(j as int),
        decreases i - j,
    {
        prefix.push(buff[j]);
        j = j + 1;
    }
    match utf8_string(prefix) {
        Some(s) => Ok(s),
        None => Err(NameError::Utf8),
    }
}

/// Whether a server keeps listening to a client after a read of its pings.
#[derive(Clone, Copy, Debug, PartialEq, Eq)]
pub enum Listen {
    Continue,
    Stop,
}

/// Decides after one read of [`ping_frame`]'s length: go on listening when
/// the read brought exactly `PING`, stop otherwise.
pub fn listen_step(received: Option<&[u8]>) -> (l: Listen)
    ensures
        l == (if read_is(read_view(received), ping_frame()) {
            Listen::Continue
        } else {
            Listen::Stop
        }),
{
    match received {
        Some(buff) => {
            let expected = ping_bytes();
            if bytes_equal(buff, expected.as_slice()) {
                Listen::Continue
            } else {
                Listen::Stop
            }
        },
        None => Listen::Stop,
    }
}

/// Where a server's conversation with one client stands.
#[derive(Clone, Copy, Debug, PartialEq, Eq)]
pub enum SessionState {
    /// The key is being read.
    AwaitingKey,
    /// The key was right; the name frame is being read.
    AwaitingName,
    /// Pings are being read.
    Listening,
    /// The conversation is over.
    Closed,
}

/// What the server does next with one client.
#[derive(Clone, Copy, Debug, PartialEq, Eq)]
pub enum SessionAction {
    /// Read exactly this many bytes and report the outcome.
    Read(usize),
    /// Write this byte (a failure to write it is fatal), then read exactly
    /// this many bytes and report the outcome.
    ReplyThenRead(u8, usize),
    /// Write this byte, whether or not that works, and drop the connection.
    ReplyThenClose(u8),
    /// Drop the connection.
    Close,
}

/// A conversation with one client, as plain values.
pub struct SessionView {
    pub key: Seq<u8>,
    pub state: SessionState,
}

/// A server's conversation with one client.
#[derive(Debug)]
pub struct Session {
    key: Vec<u8>,
    state: SessionState,
}

impl View for Session {
    type V = SessionView;

    closed spec fn view(&self) -> SessionView {
        SessionView { key: self.key@, state: self.state }
    }
}

/// A new conversation in which the client must send `key`: read that many
/// bytes.
pub open spec fn session_start(key: Seq<u8>) -> (SessionView, SessionAction) {
    (SessionView { key, state: SessionState::AwaitingKey }, SessionAction::Read(key.len() as usize))
}

/// The conversation and the next action after a read whose outcome is
/// `received` (`None` for a failed read).
///
/// The name frame is read and then passed over: whether it holds a name or
/// not, or even whether it could be read, the server goes on to read pings.
pub open spec fn session_step(s: SessionView, received: Option<Seq<u8>>) -> (SessionView, SessionAction) {
    let listening = SessionView { key: s.key, state: SessionState::Listening };
    let closed = SessionView { key: s.key, state: SessionState::Closed };
    match s.state {
        SessionState::AwaitingKey => match key_verdict(s.key, received) {
            Ok(reply) => (
                SessionView { key: s.key, state: SessionState::AwaitingName },
                SessionAction::ReplyThenRead(reply, NAME_FRAME_LEN),
            ),
            Err(reply) => (closed, SessionAction::ReplyThenClose(reply)),
        },
        SessionState::AwaitingName => (listening, SessionAction::Read(4)),
        SessionState::Listening => if read_is(received, ping_frame()) {
            (listening, SessionAction::Read(4))
        } else {
            (closed, SessionAction::Close)
        },
        SessionState::Closed => (closed, SessionAction::Close),
    }
}

/// The conversation after the reads `reads`, one after the other.
pub open spec fn session_run(s: SessionView, reads: Seq<Option<Seq<u8>>>) -> SessionView
    decreases reads.len(),
{
    if reads.len() == 0 {
        s
    } else {
        session_run(session_step(s, reads[0]).0, reads.drop_first())
    }
}

impl Session {
    /// A conversation with a newly accepted client, which must send `key`.
    pub fn new(key: &[u8]) -> (r: (Session, SessionAction))
        ensures
            (r.0@, r.1) == session_start(key@),
    {
        let n: usize = key.len();
        (Session { key: slice_to_vec(key), state: SessionState::AwaitingKey }, SessionAction::Read(n))
    }

    /// Where the conversation stands.
    pub fn state(&self) -> (st: SessionState)
        ensures
            st == self@.state,
    {
        self.state
    }

    /// Takes in the outcome of the last read and says what to do next.
    pub fn step(&mut self, received: Option<&[u8]>) -> (a: SessionAction)
        ensures
            (final(self)@, a) == session_step(old(self)@, read_view(received)),
    {
        let ping_len: usize = ping_bytes().len();
        match self.state {
            SessionState::AwaitingKey => match check_key(self.key.as_slice(), received) {
                Ok(reply) => {
                    self.state = SessionState::AwaitingName;
                    SessionAction::ReplyThenRead(reply, NAME_FRAME_LEN)
                },
                Err(reply) => {
                    self.state = SessionState::Closed;
                    SessionAction::ReplyThenClose(reply)
                },
            },
            SessionState::AwaitingName => {
                let _name = get_name(received);
                self.state = SessionState::Listening;
                SessionAction::Read(ping_len)
            },
            SessionState::Listening => match listen_step(received) {
                Listen::Continue => SessionAction::Read(ping_len),
                Listen::Stop => {
                    self.state = SessionState::Closed;
                    SessionAction::Close
                },
            },
            SessionState::Closed => SessionAction::Close,
        }
    }
}

/// A conversation that is over stays over, whatever is read after.
pub proof fn lemma_closed_stays_closed(s: SessionView, reads: Seq<Option<Seq<u8>>>)
    requires
        s.state == SessionState::Closed,
    ensures
        session_run(s, reads) == s,
    decreases reads.len(),
{
    if reads.len() > 0 {
        lemma_closed_stays_closed(session_step(s, reads[0]).0, reads.drop_first());
    }
}

/// A server reads a client's name, or listens to its pings, only after the
/// first read brought exactly the key; a client that sent anything else, or
/// whose key could not be read, is answered and dropped for good.
pub proof fn lemma_name_and_pings_only_after_right_key(key: Seq<u8>, reads: Seq<Option<Seq<u8>>>)
    ensures
        ({
            let st = session_run(session_start(key).0, reads).state;
            st == SessionState::AwaitingName || st == SessionState::Listening
        }) ==> reads.len() >= 1 && reads[0] == Some(key),
{
    let s0 = session_start(key).0;
    if reads.len() >= 1 && reads[0] != Some(key) {
        let s1 = session_step(s0, reads[0]).0;
        assert(s1.state == SessionState::Closed);
        lemma_closed_stays_closed(s1, reads.drop_first());
    }
}

/// A frame built from a name whose UTF-8 bytes are fewer than
/// [`NAME_FRAME_LEN`] and hold no zero byte gives that name back.
pub proof fn lemma_name_frame_round_trip(name: Seq<char>)
    requires
        encode_utf8(name).len() < NAME_FRAME_LEN,
        forall|i: int| 0 <= i < encode_utf8(name).len() ==> encode_utf8(name)[i] != 0,
    ensures
        name_in_frame(name_frame(name)) == Ok::<Seq<char>, NameError>(name),
{
    broadcast use vstd::utf8::encode_utf8_valid_utf8, vstd::utf8::encode_utf8_decode_utf8;

    let b = encode_utf8(name);
    let frame = name_frame(name);
    let n: int = b.len() as int;
    assert(frame[n] == 0);
    assert(first_zero_at(frame, n));
    let end = choose|i: int| first_zero_at(frame, i);
    lemma_first_zero_unique(frame, n, end);
    assert(frame.take(n) =~= b);
}

/// A frame built from a name whose UTF-8 bytes fill the whole frame and hold
/// no zero byte has no end: the server finds no name in it.
pub proof fn lemma_long_name_has_no_end(name: Seq<char>)
    requires
        encode_utf8(name).len() >= NAME_FRAME_LEN,
        forall|i: int| 0 <= i < encode_utf8(name).len() ==> encode_utf8(name)[i] != 0,
    ensures
        name_in_frame(name_frame(name)) == Err::<Seq<char>, NameError>(NameError::NoNull),
{
    let frame = name_frame(name);
    assert forall|i: int| !first_zero_at(frame, i) by {
        if 0 <= i < frame.len() {
            assert(frame[i] == encode_utf8(name)[i]);
        }
    }
}

/// A new conversation first reads exactly as many bytes as the key holds.
/// When that read brings exactly the key, the server answers `1` and reads a
/// 100-byte name frame next; anything else (other bytes, or a failed read) is
/// answered with `1` as well and the client is dropped.
pub proof fn lemma_session_reads_whole_key(key: Seq<u8>, received: Option<Seq<u8>>)
    requires
        key.len() <= usize::MAX,
    ensures
        session_start(key).0 == (SessionView { key, state: SessionState::AwaitingKey }),
        session_start(key).1 matches SessionAction::Read(n) && n == key.len(),
        received == Some(key) ==> session_step(session_start(key).0, received) == (
            SessionView { key, state: SessionState::AwaitingName },
            SessionAction::ReplyThenRead(0x31u8, 100),
        ),
        received != Some(key) ==> session_step(session_start(key).0, received) == (
            SessionView { key, state: SessionState::Closed },
            SessionAction::ReplyThenClose(0x31u8),
        ),
{
}

/// Reading the name frame never decides anything: whatever it brings, a
/// name, no name, bytes that are not text, or a failed read, the server goes
/// on to read 4-byte pings.
pub proof fn lemma_name_read_leads_to_listening(key: Seq<u8>, received: Option<Seq<u8>>)
    ensures
        session_step(SessionView { key, state: SessionState::AwaitingName }, received) == (
            SessionView { key, state: SessionState::Listening },
            SessionAction::Read(4),
        ),
{
}

/// A listening server reads the next 4 bytes when the last read brought
/// exactly `PING`, and drops the client otherwise.
pub proof fn lemma_listening_needs_ping(key: Seq<u8>, received: Option<Seq<u8>>)
    ensures
        received == Some(seq![0x50u8, 0x49u8, 0x4eu8, 0x47u8]) ==> session_step(
            SessionView { key, state: SessionState::Listening },
            received,
        ) == (SessionView { key, state: SessionState::Listening }, SessionAction::Read(4)),
        received != Some(seq![0x50u8, 0x49u8, 0x4eu8, 0x47u8]) ==> session_step(
            SessionView { key, state: SessionState::Listening },
            received,
        ) == (SessionView { key, state: SessionState::Closed }, SessionAction::Close),
{
    assert(ping_frame() =~= seq![0x50u8, 0x49u8, 0x4eu8, 0x47u8]);
}

/// A key is accepted exactly when the read brought exactly the key's bytes,
/// and the answer is the byte `1` either way.
pub proof fn lemma_key_verdict(key: Seq<u8>, received: Option<Seq<u8>>)
    ensures
        key_verdict(key, received) is Ok <==> received == Some(key),
        key_verdict(key, received) == Ok::<u8, u8>(0x31u8) || key_verdict(key, received) == Err::<u8, u8>(0x31u8),
{
}

/// What the server finds in a name frame: no name exactly when the frame holds
/// no zero byte; otherwise a name whose UTF-8 bytes are exactly the bytes
/// before the first zero byte, or `Utf8` when those bytes are not UTF-8.
pub proof fn lemma_name_in_frame_meaning(frame: Seq<u8>)
    ensures
        name_in_frame(frame) == Err::<Seq<char>, NameError>(NameError::NoNull) <==> (forall|i: int|
            0 <= i < frame.len() ==> frame[i] != 0),
        name_in_frame(frame) matches Ok(name) ==> {
            let b = encode_utf8(name);
            &&& b.len() < frame.len()
            &&& frame[b.len() as int] == 0
            &&& frame.take(b.len() as int) == b
            &&& forall|i: int| 0 <= i < b.len() ==> b[i] != 0
        },
        name_in_frame(frame) == Err::<Seq<char>, NameError>(NameError::Utf8) ==> exists|i: int|
            first_zero_at(frame, i) && !valid_utf8(frame.take(i)),
        name_in_frame(frame) != Err::<Seq<char>, NameError>(NameError::Io),
{
    broadcast use vstd::utf8::decode_utf8_encode_utf8;

    if exists|i: int| first_zero_at(frame, i) {
        let end = choose|i: int| first_zero_at(frame, i);
        assert(frame[end] == 0);
        if valid_utf8(frame.take(end)) {
            let b = encode_utf8(decode_utf8(frame.take(end)));
            assert(b == frame.take(end));
            assert forall|i: int| 0 <= i < b.len() implies b[i] != 0 by {
                assert(b[i] == frame[i]);
            }
        }
    } else {
        assert forall|i: int| 0 <= i < frame.len() implies frame[i] != 0 by {
            if frame[i] == 0 {
                lemma_some_first_zero(frame, i);
            }
        }
    }
}

/// A byte string that holds a zero byte has a first one.
proof fn lemma_some_first_zero(frame: Seq<u8>, i: int)
    requires
        0 <= i < frame.len(),
        frame[i] == 0,
    ensures
        exists|k: int| first_zero_at(frame, k),
    decreases i,
{
    if forall|k: int| 0 <= k < i ==> frame[k] != 0 {
        assert(first_zero_at(frame, i));
    } else {
        let k = choose|k: int| 0 <= k < i && frame[k] == 0;
        lemma_some_first_zero(frame, k);
    }
}

} // verus!
