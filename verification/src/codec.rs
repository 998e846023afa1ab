//! Token payload codec.
//!
//! A token payload is the ordered concatenation of two 64-bit identifiers
//! (a message identifier, then a channel identifier), each encoded as eight
//! little-endian bytes, so a well-formed payload is exactly 16 bytes long.
//! The payload carries no redundancy of its own: authentication, not
//! structure, is what protects it.
//!
//! On the wire a payload (and a MAC) travels as URL-safe base64 text without
//! padding; the text codec here is canonical, so a text string decodes to a
//! byte string exactly when it is that byte string's encoding.

use vstd::bytes::{
    lemma_auto_spec_u64_to_from_le_bytes, spec_u64_from_le_bytes, spec_u64_to_le_bytes,
    u64_from_le_bytes, u64_to_le_bytes,
};
use vstd::prelude::*;

verus! {

/// Number of bytes in a full payload: message identifier then channel
/// identifier, eight little-endian bytes each.
pub const PAYLOAD_BYTES: usize = 16;

/// Failures of the payload codecs.
#[derive(Clone, Copy, Debug, PartialEq, Eq, Structural)]
pub enum CodecError {
    /// The payload length is not a multiple of eight bytes, or it is too
    /// short to hold both identifiers.
    WrongLength,
    /// The text is not the URL-safe unpadded base64 encoding of any byte
    /// string.
    Malformed,
}

/// The URL-safe unpadded base64 text that `text_encode` produces for a byte
/// string.  The encoding depends on the bytes alone, and is canonical: no
/// two byte strings share it, and `text_decode` accepts nothing else.
pub uninterp spec fn b64_of(bytes: Seq<u8>) -> Seq<char>;

/// Relies on base64's URL_SAFE_NO_PAD engine, Engine::encode: the URL-safe
/// unpadded base64 encoding of the input, depending on the input alone.
#[verifier::external_body]
fn b64_encode_raw(bytes: &[u8]) -> (r: String)
    ensures
        r@ == b64_of(bytes@),
{
    base64::Engine::encode(&base64::engine::general_purpose::URL_SAFE_NO_PAD, bytes)
}

/// Relies on base64's URL_SAFE_NO_PAD engine, Engine::decode: with padding
/// forbidden and trailing bits checked, decoding succeeds exactly on the
/// canonical encoding of some byte string, and returns that byte string.
#[verifier::external_body]
fn b64_decode_raw(text: &str) -> (r: Result<Vec<u8>, CodecError>)
    ensures
        r matches Ok(b) ==> text@ == b64_of(b@),
        r matches Ok(b) ==> forall|p: Seq<u8>| #[trigger] b64_of(p) == text@ ==> b@ == p,
        r matches Err(e) ==> e == CodecError::Malformed && forall|p: Seq<u8>|
            #[trigger] b64_of(p) != text@,
{
    base64::Engine::decode(&base64::engine::general_purpose::URL_SAFE_NO_PAD, text)
        .map_err(|_| CodecError::Malformed)
}

/// URL-safe, no-padding text encoding of a byte string.
pub fn text_encode(bytes: &[u8]) -> (r: String)
    ensures
        r@ == b64_of(bytes@),
{
    b64_encode_raw(bytes)
}

/// Inverse of `text_encode`.  Succeeds exactly on the canonical encoding of
/// some byte string, returning that byte string; anything else is
/// malformed.
pub fn text_decode(text: &str) -> (r: Result<Vec<u8>, CodecError>)
    ensures
        r matches Ok(b) ==> text@ == b64_of(b@),
        r matches Ok(b) ==> forall|p: Seq<u8>| #[trigger] b64_of(p) == text@ ==> b@ == p,
        r matches Err(e) ==> e == CodecError::Malformed && forall|p: Seq<u8>|
            #[trigger] b64_of(p) != text@,
{
    b64_decode_raw(text)
}

/// The payload that `encode` produces for the given identifier pair.
pub open spec fn spec_payload(message_id: u64, channel_id: u64) -> Seq<u8> {
    spec_u64_to_le_bytes(message_id) + spec_u64_to_le_bytes(channel_id)
}

/// Whether a byte string is acceptable to `decode`: a whole number of
/// eight-byte blocks, at least two of them.
pub open spec fn spec_decodable(bytes: Seq<u8>) -> bool {
    &&& bytes.len() % 8 == 0
    &&& bytes.len() >= 16
}

/// The identifier pair that `decode` reads back from a byte string, or
/// `None` where the length is malformed.  Only the first two blocks carry
/// identifiers; any further blocks are ignored.
pub open spec fn spec_decode(bytes: Seq<u8>) -> Option<(u64, u64)> {
    if spec_decodable(bytes) {
        Some(
            (
                spec_u64_from_le_bytes(bytes.subrange(0, 8)),
                spec_u64_from_le_bytes(bytes.subrange(8, 16)),
            ),
        )
    } else {
        None
    }
}

/// Concatenates the two identifiers as eight-byte little-endian blocks, in
/// that fixed order.
pub fn encode(message_id: u64, channel_id: u64) -> (r: Vec<u8>)
    ensures
        r@ == spec_payload(message_id, channel_id),
        r@.len() == PAYLOAD_BYTES,
{
    proof {
        lemma_auto_spec_u64_to_from_le_bytes();
    }
    let mut payload = u64_to_le_bytes(message_id);
    let mut channel_bytes = u64_to_le_bytes(channel_id);
    payload.append(&mut channel_bytes);
    payload
}

/// Reads the identifier pair back out of a payload.  Fails unless the
/// length is a multiple of eight bytes with both identifier blocks present;
/// succeeds on longer well-formed payloads, ignoring the extra blocks.
pub fn decode(bytes: &[u8]) -> (r: Result<(u64, u64), CodecError>)
    ensures
        match r {
            Ok(ids) => spec_decode(bytes@) == Some(ids),
            Err(e) => spec_decode(bytes@) is None && e == CodecError::WrongLength,
        },
{
    let n = bytes.len();
    if n % 8 != 0 || n < 16 {
        return Err(CodecError::WrongLength);
    }
    let message_id = u64_from_le_bytes(vstd::slice::slice_subrange(bytes, 0, 8));
    let channel_id = u64_from_le_bytes(vstd::slice::slice_subrange(bytes, 8, 16));
    Ok((message_id, channel_id))
}

/// Round-trip law: decoding an encoded identifier pair gives the pair back,
/// for every pair of 64-bit identifiers.
pub proof fn lemma_codec_round_trip(message_id: u64, channel_id: u64)
    ensures
        spec_decode(spec_payload(message_id, channel_id)) == Some((message_id, channel_id)),
{
    lemma_auto_spec_u64_to_from_le_bytes();
    let payload = spec_payload(message_id, channel_id);
    assert(payload.subrange(0, 8) =~= spec_u64_to_le_bytes(message_id));
    assert(payload.subrange(8, 16) =~= spec_u64_to_le_bytes(channel_id));
}

} // verus!
