//! Token issuance at image-composition time.
//!
//! After the composite image has been posted as a reply, the token is built
//! from the reply's own message identifier and the channel identifier — the
//! reply, not the request, is what carries the ordered attachments a later
//! redemption reads.  The payload and its MAC are text-encoded into the
//! redeemable link's query parameters, and the cache is seeded at once
//! under the same token text, from the original full-size attachment URLs,
//! so the first redemption never needs the cold path.

use crate::cache::{spec_entry_expiry, CacheEntry, CacheError, RecordModel, ResolutionCache};
use crate::codec;
use crate::codec::{b64_of, spec_payload};
use crate::mac;
use crate::mac::mac_of;
use vstd::prelude::*;
use vstd::string::StringExecFns;

verus! {

/// A freshly issued token: the text-encoded payload and MAC that become
/// the `d` and `m` parameters of the redeemable link.
pub struct IssuedToken {
    pub data_text: String,
    pub mac_text: String,
}

/// Builds the token for the given message and channel identifiers: the
/// text-encoded payload and the text-encoded MAC over that payload.
pub fn issue_token(key: &[u8; 32], message_id: u64, channel_id: u64) -> (t: IssuedToken)
    ensures
        t.data_text@ == b64_of(spec_payload(message_id, channel_id)),
        t.mac_text@ == b64_of(mac_of(key@, spec_payload(message_id, channel_id))),
{
    let payload = codec::encode(message_id, channel_id);
    let tag = mac::compute_mac(key, payload.as_slice());
    IssuedToken {
        data_text: codec::text_encode(payload.as_slice()),
        mac_text: codec::text_encode(tag.as_slice()),
    }
}

/// The query parameters of the redeemable link, in order: `d` and `m`
/// carry the token, `o` the orientation flag, `v` for a vertical
/// comparison and `h` for a horizontal one.
pub fn link_query_params(token: &IssuedToken, vertical: bool) -> (r: Vec<(String, String)>)
    ensures
        r.deep_view() == seq![
            ("d"@, token.data_text@),
            ("m"@, token.mac_text@),
            ("o"@, if vertical { "v"@ } else { "h"@ }),
        ],
{
    let orientation = if vertical {
        String::from_str("v")
    } else {
        String::from_str("h")
    };
    let mut params: Vec<(String, String)> = Vec::new();
    params.push((String::from_str("d"), token.data_text.clone()));
    params.push((String::from_str("m"), token.mac_text.clone()));
    params.push((String::from_str("o"), orientation));
    proof {
        assert(params.deep_view() =~= seq![
            ("d"@, token.data_text@),
            ("m"@, token.mac_text@),
            ("o"@, if vertical { "v"@ } else { "h"@ }),
        ]);
    }
    params
}

/// Redeemability law: the `d`/`m` pair of an issued token authenticates
/// the very payload it was built from, and that payload decodes back to
/// the issuing message and channel identifiers — so a redemption of an
/// issued token never fails authentication, and its cold path looks up
/// exactly the message the token was issued for.
pub proof fn lemma_issued_token_redeemable(key: Seq<u8>, message_id: u64, channel_id: u64)
    ensures
        crate::resolver::spec_request_ok(
            key,
            b64_of(spec_payload(message_id, channel_id)),
            b64_of(mac_of(key, spec_payload(message_id, channel_id))),
            spec_payload(message_id, channel_id),
        ),
        codec::spec_decode(spec_payload(message_id, channel_id)) == Some(
            (message_id, channel_id),
        ),
{
    codec::lemma_codec_round_trip(message_id, channel_id);
}

/// Issues the token and immediately seeds the cache under its token text,
/// so that the very first redemption is served warm.  The entry holds the
/// original attachment URLs and labels.  Seeding fails, leaving the cache
/// unchanged, exactly where either URL lacks a readable embedded expiry.
pub fn issue_and_seed(
    cache: &mut ResolutionCache,
    key: &[u8; 32],
    message_id: u64,
    channel_id: u64,
    entry: CacheEntry,
) -> (r: Result<(IssuedToken, u64), CacheError>)
    ensures
        r matches Ok((t, expire_unix_ts)) ==> {
            &&& t.data_text@ == b64_of(spec_payload(message_id, channel_id))
            &&& t.mac_text@ == b64_of(mac_of(key@, spec_payload(message_id, channel_id)))
            &&& Some(expire_unix_ts) == spec_entry_expiry(entry@)
            &&& final(cache)@ == old(cache)@.insert(
                b64_of(spec_payload(message_id, channel_id)),
                RecordModel { entry: entry@, expire_unix_ts },
            )
        },
        r matches Err(e) ==> {
            &&& e == CacheError::Internal
            &&& spec_entry_expiry(entry@) is None
            &&& final(cache)@ == old(cache)@
        },
{
    let token = issue_token(key, message_id, channel_id);
    match cache.set(token.data_text.as_str(), entry) {
        Ok(expire_unix_ts) => Ok((token, expire_unix_ts)),
        Err(e) => Err(e),
    }
}

} // verus!
