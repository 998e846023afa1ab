//! Keyed message authentication of token payloads.
//!
//! A 32-byte secret key is derived once per deployment from operator-supplied
//! key material under a fixed, versioned domain-separation context string;
//! changing that string deliberately invalidates every previously issued
//! token.  A MAC is the first 16 bytes of a keyed digest over the payload,
//! and verification recomputes it and compares with a constant-time byte
//! comparison that never reveals how many bytes matched.

use vstd::prelude::*;

verus! {

broadcast use vstd::array::group_array_axioms;

/// Number of bytes in a derived secret key.
pub const KEY_BYTES: usize = 32;

/// Number of bytes in a MAC.
pub const MAC_BYTES: usize = 16;

/// The 32-byte key that the key-derivation function yields for a given
/// context string and key material.  The result depends on those two
/// arguments alone.
pub uninterp spec fn derived_key_of(context: Seq<char>, material: Seq<u8>) -> Seq<u8>;

/// The 16-byte keyed digest of a payload under a 32-byte key.  The result
/// depends on the key and the payload alone.
pub uninterp spec fn mac_of(key: Seq<u8>, payload: Seq<u8>) -> Seq<u8>;

/// Relies on blake3::derive_key: a key-derivation function from a context
/// string and key material to 32 bytes, depending on its arguments alone.
#[verifier::external_body]
fn derive_key_raw(context: &str, material: &[u8]) -> (r: [u8; 32])
    ensures
        r@ == derived_key_of(context@, material@),
{
    blake3::derive_key(context, material)
}

/// Relies on blake3::Hasher::new_keyed, update and finalize_xof: the keyed
/// digest stream of the input, of which the first 16 bytes are taken; it
/// depends on the key and the input alone.
#[verifier::external_body]
fn keyed_mac_raw(key: &[u8; 32], payload: &[u8]) -> (r: [u8; 16])
    ensures
        r@ == mac_of(key@, payload@),
{
    let mut out = [0u8; 16];
    blake3::Hasher::new_keyed(key).update(payload).finalize_xof().fill(&mut out);
    out
}

/// Relies on constant_time_eq::constant_time_eq: returns whether the two
/// byte strings are equal (false on a length mismatch), taking time
/// independent of where equal-length strings first differ.
#[verifier::external_body]
fn bytes_eq_constant_time(a: &[u8], b: &[u8]) -> (r: bool)
    ensures
        r == (a@ == b@),
{
    constant_time_eq::constant_time_eq(a, b)
}

/// The secret key that this deployment's key material yields: derivation is
/// pinned to the fixed, versioned context string of this protocol.
pub open spec fn spec_derived_key(material: Seq<u8>) -> Seq<u8> {
    derived_key_of("utilBOT 2023-10-15 12:11:06 juxtapose MAC v1"@, material)
}

/// Whether a candidate MAC authenticates a payload under a key: it must
/// equal the payload's true MAC, byte for byte.
pub open spec fn spec_verify(key: Seq<u8>, payload: Seq<u8>, candidate: Seq<u8>) -> bool {
    candidate == mac_of(key, payload)
}

/// Derives the process-lifetime secret key from the operator-supplied key
/// material, under this protocol's fixed domain-separation context string.
pub fn derive_key(material: &[u8]) -> (r: [u8; 32])
    ensures
        r@ == spec_derived_key(material@),
        r@.len() == KEY_BYTES,
{
    derive_key_raw("utilBOT 2023-10-15 12:11:06 juxtapose MAC v1", material)
}

/// Computes the 16-byte MAC of a payload under a key.
pub fn compute_mac(key: &[u8; 32], payload: &[u8]) -> (r: [u8; 16])
    ensures
        r@ == mac_of(key@, payload@),
        r@.len() == MAC_BYTES,
{
    keyed_mac_raw(key, payload)
}

/// Recomputes the payload's MAC and compares it with the candidate in
/// constant time.  Returns false, and never fails, on a candidate of the
/// wrong length.
pub fn verify(key: &[u8; 32], payload: &[u8], candidate: &[u8]) -> (r: bool)
    ensures
        r == spec_verify(key@, payload@, candidate@),
{
    let expected = keyed_mac_raw(key, payload);
    bytes_eq_constant_time(candidate, expected.as_slice())
}

/// Forgery-resistance law: a candidate that differs from the payload's true
/// MAC in even a single byte never verifies; in particular, flipping any
/// bit of a valid MAC makes verification fail.
pub proof fn lemma_tampered_mac_rejected(
    key: Seq<u8>,
    payload: Seq<u8>,
    candidate: Seq<u8>,
    i: int,
)
    requires
        0 <= i < candidate.len(),
        i < mac_of(key, payload).len(),
        candidate[i] != mac_of(key, payload)[i],
    ensures
        !spec_verify(key, payload, candidate),
{
}

} // verus!
