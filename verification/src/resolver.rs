//! Redemption of a token: from an incoming `d`/`m` query pair back to the
//! two image URLs.
//!
//! A request is first authenticated: both parameters must decode from
//! URL-safe base64 and the MAC must verify over the decoded payload;
//! anything else is a client error, with authentication failure
//! indistinguishable from malformed input.  An authenticated request is
//! served from the cache when a record stands under the token text (the
//! warm path); otherwise the payload's identifiers name the source message
//! to fetch, and the fetched message — which must be this service's own —
//! yields the entry from its second and third attachments, which is stored
//! and returned (the cold path).

use crate::cache::{spec_entry_expiry, CacheEntry, EntryModel, RecordModel, ResolutionCache};
use crate::codec;
use crate::codec::{b64_of, spec_decode};
use crate::mac;
use crate::mac::mac_of;
use vstd::prelude::*;

verus! {

/// Failures of a redemption request, surfaced as HTTP status codes.
#[derive(Clone, Copy, Debug, PartialEq, Eq, Structural)]
pub enum ResolveError {
    /// Undecodable token or MAC text, a MAC that does not verify, or a
    /// source message that this service did not author.
    BadRequest,
    /// The source message could not be retrieved.
    NotFound,
    /// A payload whose identifiers cannot be read back, a message without
    /// both image attachments, or a backend failure.
    Internal,
}

impl ResolveError {
    /// The HTTP status code each failure surfaces as.
    pub open spec fn spec_status_code(self) -> u16 {
        match self {
            ResolveError::BadRequest => 400,
            ResolveError::NotFound => 404,
            ResolveError::Internal => 500,
        }
    }

    /// The HTTP status code this failure surfaces as.
    pub fn status_code(&self) -> (r: u16)
        ensures
            r == self.spec_status_code(),
    {
        match self {
            ResolveError::BadRequest => 400,
            ResolveError::NotFound => 404,
            ResolveError::Internal => 500,
        }
    }
}

/// One attachment of a source message: its URL and its optional
/// user-supplied description.
pub struct SourceAttachment {
    pub url: String,
    pub description: Option<String>,
}

/// Mathematical image of a [`SourceAttachment`].
pub struct SourceAttachmentModel {
    pub url: Seq<char>,
    pub description: Option<Seq<char>>,
}

impl View for SourceAttachment {
    type V = SourceAttachmentModel;

    open spec fn view(&self) -> SourceAttachmentModel {
        SourceAttachmentModel {
            url: self.url@,
            description: match self.description {
                Some(d) => Some(d@),
                None => None,
            },
        }
    }
}

/// A source chat message as the resolver reads it: its ordered attachments
/// and whether this service's own identity authored it.
pub struct SourceMessage {
    pub attachments: Vec<SourceAttachment>,
    pub authored_by_self: bool,
}

/// Mathematical image of a [`SourceMessage`].
pub struct SourceMessageModel {
    pub attachments: Seq<SourceAttachmentModel>,
    pub authored_by_self: bool,
}

impl View for SourceMessage {
    type V = SourceMessageModel;

    open spec fn view(&self) -> SourceMessageModel {
        SourceMessageModel {
            attachments: Seq::new(self.attachments@.len(), |i: int| self.attachments@[i]@),
            authored_by_self: self.authored_by_self,
        }
    }
}

/// Whether `payload` is the one the request text carries and its MAC
/// authenticates: `d` is the payload's text encoding and `m` the text
/// encoding of the payload's MAC under `key`.
pub open spec fn spec_request_ok(
    key: Seq<u8>,
    d: Seq<char>,
    m: Seq<char>,
    payload: Seq<u8>,
) -> bool {
    &&& d == b64_of(payload)
    &&& m == b64_of(mac_of(key, payload))
}

/// Decodes the `d` and `m` request parameters and verifies the MAC over
/// the decoded payload, which is returned.  Fails with `BadRequest` —
/// exactly when no payload authenticates the request — on text that does
/// not decode, a MAC of the wrong length, and a MAC that does not match
/// alike.
pub fn check_request(key: &[u8; 32], d: &str, m: &str) -> (r: Result<Vec<u8>, ResolveError>)
    ensures
        r matches Ok(p) ==> spec_request_ok(key@, d@, m@, p@),
        r matches Ok(p) ==> forall|q: Seq<u8>|
            #[trigger] spec_request_ok(key@, d@, m@, q) ==> q == p@,
        r matches Err(e) ==> e == ResolveError::BadRequest && forall|q: Seq<u8>|
            !(#[trigger] spec_request_ok(key@, d@, m@, q)),
{
    let payload = match codec::text_decode(d) {
        Ok(p) => p,
        Err(_) => {
            return Err(ResolveError::BadRequest);
        },
    };
    let mac_bytes = match codec::text_decode(m) {
        Ok(b) => b,
        Err(_) => {
            return Err(ResolveError::BadRequest);
        },
    };
    if mac::verify(key, payload.as_slice(), mac_bytes.as_slice()) {
        Ok(payload)
    } else {
        Err(ResolveError::BadRequest)
    }
}

/// What an authenticated redemption request resolves to before any outside
/// lookup: a cached record, or the source message still to be fetched.
pub enum Resolution {
    /// The cache holds the token's record: the entry and its stored
    /// absolute expiry.
    Cached { entry: CacheEntry, expire_unix_ts: u64 },
    /// Cache miss: the source message named by these identifiers must be
    /// fetched and the resolution completed against it.
    Lookup { message_id: u64, channel_id: u64 },
}

/// Authenticates a request and probes the cache.  On a hit the cached
/// entry and its expiry come back; on a miss the identifiers to look up.
/// Fails with `BadRequest` exactly when no payload authenticates the
/// request, and with `Internal` when the authenticated payload's
/// identifiers cannot be read back.
pub fn resolve_request(
    cache: &ResolutionCache,
    key: &[u8; 32],
    d: &str,
    m: &str,
) -> (r: Result<Resolution, ResolveError>)
    ensures
        r matches Ok(Resolution::Cached { entry, expire_unix_ts }) ==> {
            &&& (exists|p: Seq<u8>| #[trigger] spec_request_ok(key@, d@, m@, p))
            &&& cache@.contains_key(d@)
            &&& entry@ == cache@[d@].entry
            &&& expire_unix_ts == cache@[d@].expire_unix_ts
        },
        r matches Ok(Resolution::Lookup { message_id, channel_id }) ==> {
            &&& !cache@.contains_key(d@)
            &&& exists|p: Seq<u8>| #[trigger] spec_request_ok(key@, d@, m@, p)
            &&& forall|p: Seq<u8>|
                #[trigger] spec_request_ok(key@, d@, m@, p) ==> spec_decode(p) == Some(
                    (message_id, channel_id),
                )
        },
        r matches Err(e) ==> e == ResolveError::BadRequest || e == ResolveError::Internal,
        r == Err::<Resolution, ResolveError>(ResolveError::BadRequest) ==> forall|q: Seq<u8>|
            !(#[trigger] spec_request_ok(key@, d@, m@, q)),
        r == Err::<Resolution, ResolveError>(ResolveError::Internal) ==> {
            &&& !cache@.contains_key(d@)
            &&& exists|p: Seq<u8>| #[trigger] spec_request_ok(key@, d@, m@, p)
            &&& forall|p: Seq<u8>|
                #[trigger] spec_request_ok(key@, d@, m@, p) ==> spec_decode(p) is None
        },
{
    let payload = match check_request(key, d, m) {
        Ok(p) => p,
        Err(e) => {
            return Err(e);
        },
    };
    match cache.get(d) {
        Some(entry) => {
            let expire_unix_ts = match cache.get_expiry(d) {
                Ok(ts) => ts,
                Err(_) => {
                    return Err(ResolveError::Internal);
                },
            };
            Ok(Resolution::Cached { entry: entry.clone(), expire_unix_ts })
        },
        None => {
            match codec::decode(payload.as_slice()) {
                Ok((message_id, channel_id)) => Ok(Resolution::Lookup { message_id, channel_id }),
                Err(_) => Err(ResolveError::Internal),
            }
        },
    }
}

/// The entry a source message yields: URL and description of its second
/// and third attachments, as left and right image.
pub open spec fn spec_extracted_entry(msg: SourceMessageModel) -> EntryModel
    recommends
        msg.attachments.len() >= 3,
{
    EntryModel {
        left_image_url: msg.attachments[1].url,
        right_image_url: msg.attachments[2].url,
        left_image_label: msg.attachments[1].description,
        right_image_label: msg.attachments[2].description,
    }
}

/// Completes a cold-path resolution against the fetched source message:
/// the message must be this service's own (else `BadRequest`) and carry
/// the second and third attachment (else `Internal`); the extracted entry
/// is stored under the token text and returned with its expiry.  On any
/// failure the cache stands unchanged.
pub fn complete_resolution(
    cache: &mut ResolutionCache,
    token_text: &str,
    msg: &SourceMessage,
) -> (r: Result<(CacheEntry, u64), ResolveError>)
    ensures
        r matches Ok((entry, expire_unix_ts)) ==> {
            &&& msg@.authored_by_self
            &&& msg@.attachments.len() >= 3
            &&& entry@ == spec_extracted_entry(msg@)
            &&& Some(expire_unix_ts) == spec_entry_expiry(entry@)
            &&& final(cache)@ == old(cache)@.insert(
                token_text@,
                RecordModel { entry: entry@, expire_unix_ts },
            )
        },
        r matches Err(e) ==> final(cache)@ == old(cache)@ && match e {
            ResolveError::BadRequest => !msg@.authored_by_self,
            ResolveError::Internal => msg@.authored_by_self && (msg@.attachments.len() < 3
                || spec_entry_expiry(spec_extracted_entry(msg@)) is None),
            ResolveError::NotFound => false,
        },
{
    if !msg.authored_by_self {
        return Err(ResolveError::BadRequest);
    }
    if msg.attachments.len() < 3 {
        return Err(ResolveError::Internal);
    }
    let left = &msg.attachments[1];
    let right = &msg.attachments[2];
    let entry = CacheEntry {
        left_image_url: left.url.clone(),
        right_image_url: right.url.clone(),
        left_image_label: match &left.description {
            Some(l) => Some(l.clone()),
            None => None,
        },
        right_image_label: match &right.description {
            Some(l) => Some(l.clone()),
            None => None,
        },
    };
    let stored = entry.clone();
    match cache.set(token_text, stored) {
        Ok(expire_unix_ts) => Ok((entry, expire_unix_ts)),
        Err(_) => Err(ResolveError::Internal),
    }
}

/// The `Cache-Control` header value every successful redemption response
/// carries.
pub fn cache_control_value() -> (r: &'static str)
    ensures
        r@ == "public, must-revalidate, immutable"@,
{
    "public, must-revalidate, immutable"
}

} // verus!
