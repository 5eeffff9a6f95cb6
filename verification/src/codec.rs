//! The frame codec for the wire format: a four-byte little-endian magic
//! constant, a four-byte little-endian payload length, then that many bytes
//! of UTF-8 text.
//!
//! Decoding never consumes more than one complete frame, and reports
//! "incomplete" while bytes are still missing.

use vstd::bytes::*;
use vstd::prelude::*;
use vstd::slice::*;
use vstd::string::*;
use vstd::utf8::*;

verus! {

/// The magic constant that opens every frame.
pub const FRAME_MAGIC: u32 = 0xAAAAAAAA;

/// The result of one decoding attempt.
pub enum DecodeOutcome {
    /// A whole frame was present: its payload text, and how many bytes of
    /// the buffer the frame occupies.
    Complete(String, usize),
    /// Too few bytes so far; nothing is consumed.
    Incomplete,
    /// The stream is corrupt: the magic constant does not match, or the
    /// payload is not UTF-8. The stream cannot be re-synchronized.
    Corrupt,
}

/// The ghost mirror of [`DecodeOutcome`].
pub enum DecodeView {
    Complete(Seq<char>, int),
    Incomplete,
    Corrupt,
}

/// The frame for a payload: magic, byte length, UTF-8 bytes.
pub open spec fn spec_encode(payload: Seq<char>) -> Seq<u8> {
    spec_u32_to_le_bytes(FRAME_MAGIC) + spec_u32_to_le_bytes(
        encode_utf8(payload).len() as u32,
    ) + encode_utf8(payload)
}

/// What decoding a buffer yields: the first frame's text and size when all
/// of it is present, `Incomplete` while bytes are missing, `Corrupt` on a
/// wrong magic constant or a payload that is not UTF-8.
pub open spec fn spec_try_decode(b: Seq<u8>) -> DecodeView {
    if b.len() < 8 {
        DecodeView::Incomplete
    } else if spec_u32_from_le_bytes(b.subrange(0, 4)) != FRAME_MAGIC {
        DecodeView::Corrupt
    } else {
        let n = spec_u32_from_le_bytes(b.subrange(4, 8)) as int;
        if b.len() < 8 + n {
            DecodeView::Incomplete
        } else if !valid_utf8(b.subrange(8, 8 + n)) {
            DecodeView::Corrupt
        } else {
            DecodeView::Complete(decode_utf8(b.subrange(8, 8 + n)), 8 + n)
        }
    }
}

/// Encodes one payload as a frame, as [`spec_encode`] describes. The length
/// field is four bytes, so the payload must fit in it.
pub fn encode(payload: &str) -> (r: Vec<u8>)
    requires
        encode_utf8(payload@).len() <= u32::MAX,
    ensures
        r@ == spec_encode(payload@),
{
    let text = payload.as_bytes();
    let mut r = u32_to_le_bytes(FRAME_MAGIC);
    let mut len_bytes = u32_to_le_bytes(text.len() as u32);
    let mut body = slice_to_vec(text);
    r.append(&mut len_bytes);
    r.append(&mut body);
    proof {
        assert(r@ =~= spec_encode(payload@));
    }
    r
}

/// Relies on `String::from_utf8`: it succeeds exactly on valid UTF-8, and
/// the returned string's bytes are the input bytes.
#[verifier::external_body]
fn string_from_utf8(v: Vec<u8>) -> (r: Option<String>)
    ensures
        r is Some <==> valid_utf8(v@),
        r is Some ==> encode_utf8(r.unwrap()@) == v@,
{
    match String::from_utf8(v) {
        Ok(s) => Some(s),
        Err(_) => None,
    }
}

/// Attempts to decode the first frame of `buf`, as [`spec_try_decode`]
/// describes.
pub fn try_decode(buf: &[u8]) -> (r: DecodeOutcome)
    ensures
        (match r {
            DecodeOutcome::Complete(text, consumed) => spec_try_decode(buf@)
                == DecodeView::Complete(text@, consumed as int),
            DecodeOutcome::Incomplete => spec_try_decode(buf@) is Incomplete,
            DecodeOutcome::Corrupt => spec_try_decode(buf@) is Corrupt,
        }),
{
    if buf.len() < 8 {
        return DecodeOutcome::Incomplete;
    }
    let magic = u32_from_le_bytes(slice_subrange(buf, 0, 4));
    if magic != FRAME_MAGIC {
        return DecodeOutcome::Corrupt;
    }
    let len = u32_from_le_bytes(slice_subrange(buf, 4, 8)) as usize;
    if buf.len() - 8 < len {
        return DecodeOutcome::Incomplete;
    }
    let payload = slice_to_vec(slice_subrange(buf, 8, 8 + len));
    match string_from_utf8(payload) {
        Some(text) => {
            proof {
                encode_utf8_decode_utf8(text@);
            }
            DecodeOutcome::Complete(text, 8 + len)
        },
        None => DecodeOutcome::Corrupt,
    }
}

/// Round trip: decoding the frame of any payload yields that payload back,
/// and consumes the whole frame and nothing more.
pub proof fn lemma_encode_decode(payload: Seq<char>)
    requires
        encode_utf8(payload).len() <= u32::MAX,
    ensures
        spec_try_decode(spec_encode(payload)) == DecodeView::Complete(
            payload,
            spec_encode(payload).len() as int,
        ),
{
    let b = spec_encode(payload);
    let text = encode_utf8(payload);
    lemma_auto_spec_u32_to_from_le_bytes();
    assert(b.subrange(0, 4) =~= spec_u32_to_le_bytes(FRAME_MAGIC));
    assert(b.subrange(4, 8) =~= spec_u32_to_le_bytes(text.len() as u32));
    assert(b.subrange(8, 8 + text.len() as int) =~= text);
    broadcast use encode_utf8_valid_utf8, encode_utf8_decode_utf8;

}

/// Every strict prefix of a frame decodes as `Incomplete`: never an error,
/// never a complete frame.
pub proof fn lemma_prefix_incomplete(payload: Seq<char>, p: Seq<u8>)
    requires
        encode_utf8(payload).len() <= u32::MAX,
        p.is_prefix_of(spec_encode(payload)),
        p.len() < spec_encode(payload).len(),
    ensures
        spec_try_decode(p) is Incomplete,
{
    let b = spec_encode(payload);
    let text = encode_utf8(payload);
    lemma_auto_spec_u32_to_from_le_bytes();
    if p.len() >= 8 {
        assert(p.subrange(0, 4) =~= b.subrange(0, 4));
        assert(p.subrange(4, 8) =~= b.subrange(4, 8));
        assert(b.subrange(0, 4) =~= spec_u32_to_le_bytes(FRAME_MAGIC));
        assert(b.subrange(4, 8) =~= spec_u32_to_le_bytes(text.len() as u32));
        assert(b.len() == 8 + text.len());
        assert(p.len() < 8 + text.len());
    }
}

} // verus!
