//! Signed-token resolution protocol for a two-image ("juxtapose") comparison
//! service, together with its write-through resolution cache.
//!
//! The library covers the pieces of the service with a genuine correctness
//! contract:
//!
//! - [`codec`]: the fixed-width binary payload that carries the two chat
//!   platform identifiers, and its URL-safe text encoding;
//! - [`mac`]: the keyed message authentication code that makes a token
//!   unforgeable, verified with a constant-time comparison;
//! - [`expiry`]: the reader for the expiry timestamp that upstream CDN
//!   URLs embed in their `ex` query parameter;
//! - [`cache`]: the resolution cache keyed by token text, whose expiry is
//!   tied to the lifetime embedded in the upstream resource URLs;
//! - [`resolver`]: the redemption state machine that turns an incoming
//!   `d`/`m` query pair back into the two image URLs;
//! - [`producer`]: token issuance at image-composition time, which also
//!   seeds the cache.
//!
//! [`gitref`] stands apart: a small helper that shortens full commit
//! hashes for display, kept with the service's chat-side utilities.
//!
//! Network transport (the HTTP server, the chat gateway, the cache backend
//! connection) stays outside the library; callers hand in plain values and
//! receive plain values back.

pub mod cache;
pub mod codec;
pub mod expiry;
pub mod gitref;
pub mod mac;
pub mod producer;
pub mod resolver;

