//! Byte-level pieces of the protocol shared by clients and servers: the frame
//! that carries a client's name, the reply by which a server accepts a key,
//! and the conversions between bytes and text.

use vstd::prelude::*;
use vstd::slice::slice_to_vec;
use vstd::utf8::{decode_utf8, encode_utf8, valid_utf8};

verus! {

/// The length of the frame in which a client sends its name.
pub const NAME_FRAME_LEN: usize = 100;

/// The frame that carries `name`: its UTF-8 bytes, cut to
/// [`NAME_FRAME_LEN`] bytes or padded to that length with zero bytes.
pub open spec fn name_frame(name: Seq<char>) -> Seq<u8> {
    let b = encode_utf8(name);
    if b.len() >= NAME_FRAME_LEN {
        b.take(NAME_FRAME_LEN as int)
    } else {
        b + Seq::new((NAME_FRAME_LEN - b.len()) as nat, |i: int| 0u8)
    }
}

/// Whether a reply read from a server says "yes": exactly the one byte `1`.
pub open spec fn reply_is_yes(reply: Seq<u8>) -> bool {
    reply == seq![0x31u8]
}

/// The frame that carries `name` (see [`name_frame`]).
pub fn name_frame_bytes(name: &String) -> (frame: Vec<u8>)
    ensures
        frame@ == name_frame(name@),
{
    let mut frame = slice_to_vec(name.as_str().as_bytes());
    let ghost bytes = frame@;
    assert(bytes == encode_utf8(name@));
    let len: usize = frame.len();
    frame.resize(NAME_FRAME_LEN, 0u8);
    if len < NAME_FRAME_LEN {
        assert(frame@ =~= name_frame(name@)) by {
            assert forall|i: int| 0 <= i < frame@.len() implies frame@[i] == name_frame(name@)[i] by {
                if i < bytes.len() {
                    assert(frame@.subrange(0, bytes.len() as int)[i] == bytes[i]);
                }
            }
        }
    } else {
        assert(frame@ =~= name_frame(name@));
    }
    frame
}

/// Whether two byte strings are equal.
pub fn bytes_equal(a: &[u8], b: &[u8]) -> (r: bool)
    ensures
        r == (a@ == b@),
{
    if a.len() != b.len() {
        return false;
    }
    let mut i: usize = 0;
    while i < a.len()
        invariant
            a@.len() == b@.len(),
            i <= a@.len(),
            forall|j: int| 0 <= j < i ==> a@[j] == b@[j],
        decreases a@.len() - i,
    {
        if a[i] != b[i] {
            return false;
        }
        i = i + 1;
    }
    assert(a@ =~= b@);
    true
}

/// The text that `bytes` encode in UTF-8, or `None` when they are not valid
/// UTF-8.
///
/// Trusted: calls `String::from_utf8`, which std documents to fail exactly on
/// bytes that are not valid UTF-8 and otherwise to hold the text they encode.
#[verifier::external_body]
pub(crate) fn utf8_string(bytes: Vec<u8>) -> (s: Option<String>)
    ensures
        s is Some <==> valid_utf8(bytes@),
        s matches Some(t) ==> t@ == decode_utf8(bytes@),
{
    String::from_utf8(bytes).ok()
}

/// A name frame is always exactly 100 bytes: the name's UTF-8 bytes as far
/// as they fit, then zero bytes up to the hundredth.
pub proof fn lemma_name_frame_layout(name: Seq<char>)
    ensures
        NAME_FRAME_LEN == 100,
        name_frame(name).len() == 100,
        forall|i: int|
            0 <= i < 100 && i < encode_utf8(name).len() ==> #[trigger] name_frame(name)[i] == encode_utf8(name)[i],
        forall|i: int| encode_utf8(name).len() <= i < 100 ==> #[trigger] name_frame(name)[i] == 0u8,
{
}

} // verus!
