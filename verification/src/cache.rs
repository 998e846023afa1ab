//! The resolution cache.
//!
//! Entries are keyed by the URL-safe text encoding of a token payload and
//! hold the two resolved image URLs with their optional labels.  An entry's
//! expiry is not a cache policy of its own: it is the earlier of the two
//! expiry timestamps embedded in the stored URLs, so a record lapses exactly
//! when the first underlying resource link does.  An entry is written only
//! once both URLs carry a readable expiry; a failed write leaves the cache
//! untouched.
//!
//! The store itself is an in-process map.  A deployment that keeps its
//! records in an external key/value backend mirrors them through
//! `entry_to_fields` and `entry_from_fields`, which fix the record layout:
//! required fields `left_image` and `right_image`, optional fields
//! `left_label` and `right_label`.

use crate::expiry::{embedded_expiry, spec_embedded_expiry};
use vstd::hash_map::StringHashMap;
use vstd::prelude::*;
use vstd::string::StringExecFns;
use vstd::utf8::encode_utf8;

verus! {

/// Failures of the resolution cache.
#[derive(Clone, Copy, Debug, PartialEq, Eq, Structural)]
pub enum CacheError {
    /// A URL handed in for storage carries no readable expiry timestamp.
    Internal,
}

/// The two resolved image URLs and their optional user-supplied labels.
pub struct CacheEntry {
    pub left_image_url: String,
    pub right_image_url: String,
    pub left_image_label: Option<String>,
    pub right_image_label: Option<String>,
}

/// Mathematical image of a [`CacheEntry`]: the same four fields as text.
pub struct EntryModel {
    pub left_image_url: Seq<char>,
    pub right_image_url: Seq<char>,
    pub left_image_label: Option<Seq<char>>,
    pub right_image_label: Option<Seq<char>>,
}

impl View for CacheEntry {
    type V = EntryModel;

    open spec fn view(&self) -> EntryModel {
        EntryModel {
            left_image_url: self.left_image_url@,
            right_image_url: self.right_image_url@,
            left_image_label: match self.left_image_label {
                Some(l) => Some(l@),
                None => None,
            },
            right_image_label: match self.right_image_label {
                Some(l) => Some(l@),
                None => None,
            },
        }
    }
}

impl Clone for CacheEntry {
    /// Field-for-field copy: the clone has the same model.
    fn clone(&self) -> (r: Self)
        ensures
            r@ == self@,
    {
        CacheEntry {
            left_image_url: self.left_image_url.clone(),
            right_image_url: self.right_image_url.clone(),
            left_image_label: match &self.left_image_label {
                Some(l) => Some(l.clone()),
                None => None,
            },
            right_image_label: match &self.right_image_label {
                Some(l) => Some(l.clone()),
                None => None,
            },
        }
    }
}

/// The expiry an entry would be stored with: the minimum of the expiry
/// timestamps embedded in its two URLs, or `None` where either URL lacks a
/// readable one.
pub open spec fn spec_entry_expiry(e: EntryModel) -> Option<u64> {
    match (
        spec_embedded_expiry(encode_utf8(e.left_image_url)),
        spec_embedded_expiry(encode_utf8(e.right_image_url)),
    ) {
        (Some(l), Some(r)) => Some(if l <= r { l } else { r }),
        _ => None,
    }
}

/// Reads the expiry of both stored URLs and takes the earlier one; `None`
/// where either URL carries no readable expiry.
pub fn entry_expiry(entry: &CacheEntry) -> (r: Option<u64>)
    ensures
        r == spec_entry_expiry(entry@),
{
    let left = embedded_expiry(entry.left_image_url.as_str().as_bytes());
    let right = embedded_expiry(entry.right_image_url.as_str().as_bytes());
    match (left, right) {
        (Some(l), Some(r)) => Some(if l <= r { l } else { r }),
        _ => None,
    }
}

/// One stored record: the entry and the absolute expiry it was written
/// with.
pub struct CachedRecord {
    pub entry: CacheEntry,
    pub expire_unix_ts: u64,
}

/// Mathematical image of a [`CachedRecord`].
pub struct RecordModel {
    pub entry: EntryModel,
    pub expire_unix_ts: u64,
}

impl View for CachedRecord {
    type V = RecordModel;

    open spec fn view(&self) -> RecordModel {
        RecordModel { entry: self.entry@, expire_unix_ts: self.expire_unix_ts }
    }
}

/// The resolution cache: token text to stored record.
pub struct ResolutionCache {
    store: StringHashMap<CachedRecord>,
}

impl View for ResolutionCache {
    type V = Map<Seq<char>, RecordModel>;

    closed spec fn view(&self) -> Map<Seq<char>, RecordModel> {
        Map::new(
            |k: Seq<char>| self.store@.contains_key(k),
            |k: Seq<char>| self.store@[k]@,
        )
    }
}

impl ResolutionCache {
    /// An empty cache.
    pub fn new() -> (r: Self)
        ensures
            r@ == Map::<Seq<char>, RecordModel>::empty(),
    {
        let r = ResolutionCache { store: StringHashMap::new() };
        proof {
            assert(r@ =~= Map::<Seq<char>, RecordModel>::empty());
        }
        r
    }

    /// Looks a token's entry up.  `None` exactly where no resolution has
    /// been stored under this token text.
    pub fn get<'a>(&'a self, token_text: &str) -> (r: Option<&'a CacheEntry>)
        ensures
            match r {
                Some(e) => self@.contains_key(token_text@) && e@ == self@[token_text@].entry,
                None => !self@.contains_key(token_text@),
            },
    {
        match self.store.get(token_text) {
            Some(rec) => Some(&rec.entry),
            None => None,
        }
    }

    /// The absolute expiry the token's record was stored with.  The caller
    /// guarantees the record exists (a `get` hit precedes this).
    pub fn get_expiry(&self, token_text: &str) -> (r: Result<u64, CacheError>)
        requires
            self@.contains_key(token_text@),
        ensures
            r == Ok::<u64, CacheError>(self@[token_text@].expire_unix_ts),
    {
        match self.store.get(token_text) {
            Some(rec) => Ok(rec.expire_unix_ts),
            None => {
                proof {
                    assert(false);
                }
                Err(CacheError::Internal)
            },
        }
    }

    /// Stores an entry under a token text, with the minimum of the two
    /// URLs' embedded expiry timestamps as the record's absolute expiry,
    /// and returns that expiry.  Fails, leaving the cache unchanged,
    /// exactly where either URL lacks a readable expiry; no partial write
    /// occurs.
    pub fn set(&mut self, token_text: &str, entry: CacheEntry) -> (r: Result<u64, CacheError>)
        ensures
            match r {
                Ok(ts) => {
                    &&& Some(ts) == spec_entry_expiry(entry@)
                    &&& final(self)@ == old(self)@.insert(
                        token_text@,
                        RecordModel { entry: entry@, expire_unix_ts: ts },
                    )
                },
                Err(e) => {
                    &&& e == CacheError::Internal
                    &&& spec_entry_expiry(entry@) is None
                    &&& final(self)@ == old(self)@
                },
            },
    {
        match entry_expiry(&entry) {
            Some(ts) => {
                let ghost entry_model = entry@;
                self.store.insert(token_text.to_owned(), CachedRecord { entry, expire_unix_ts: ts });
                proof {
                    assert(self@ =~= old(self)@.insert(
                        token_text@,
                        RecordModel { entry: entry_model, expire_unix_ts: ts },
                    ));
                }
                Ok(ts)
            },
            None => Err(CacheError::Internal),
        }
    }
}

/// The backend record layout of an entry, in writing order: the two
/// required URL fields, then each optional label field that is present.
pub open spec fn spec_entry_fields(e: EntryModel) -> Seq<(Seq<char>, Seq<char>)> {
    let base = seq![
        ("left_image"@, e.left_image_url),
        ("right_image"@, e.right_image_url),
    ];
    let with_left = match e.left_image_label {
        Some(l) => base.push(("left_label"@, l)),
        None => base,
    };
    match e.right_image_label {
        Some(l) => with_left.push(("right_label"@, l)),
        None => with_left,
    }
}

/// The value of the first field named `key`, or `None` where no field
/// carries that name.
pub open spec fn spec_lookup_field(
    fields: Seq<(Seq<char>, Seq<char>)>,
    key: Seq<char>,
) -> Option<Seq<char>>
    decreases fields.len(),
{
    if fields.len() == 0 {
        None
    } else if fields[0].0 == key {
        Some(fields[0].1)
    } else {
        spec_lookup_field(fields.drop_first(), key)
    }
}

/// The entry a list of backend fields describes: both URL fields must be
/// present, the label fields may be.
pub open spec fn spec_entry_of_fields(fields: Seq<(Seq<char>, Seq<char>)>) -> Option<EntryModel> {
    match (
        spec_lookup_field(fields, "left_image"@),
        spec_lookup_field(fields, "right_image"@),
    ) {
        (Some(l), Some(r)) => Some(
            EntryModel {
                left_image_url: l,
                right_image_url: r,
                left_image_label: spec_lookup_field(fields, "left_label"@),
                right_image_label: spec_lookup_field(fields, "right_label"@),
            },
        ),
        _ => None,
    }
}

/// Lays an entry out as backend record fields, omitting absent labels.
pub fn entry_to_fields(entry: &CacheEntry) -> (r: Vec<(String, String)>)
    ensures
        r.deep_view() == spec_entry_fields(entry@),
{
    let mut fields: Vec<(String, String)> = Vec::new();
    fields.push((String::from_str("left_image"), entry.left_image_url.clone()));
    fields.push((String::from_str("right_image"), entry.right_image_url.clone()));
    if let Some(l) = &entry.left_image_label {
        fields.push((String::from_str("left_label"), l.clone()));
    }
    if let Some(l) = &entry.right_image_label {
        fields.push((String::from_str("right_label"), l.clone()));
    }
    proof {
        assert(fields.deep_view() =~= spec_entry_fields(entry@));
    }
    fields
}

/// The value of the first field named `key`.
fn lookup_field<'a>(fields: &'a Vec<(String, String)>, key: &String) -> (r: Option<&'a String>)
    ensures
        match r {
            Some(v) => spec_lookup_field(fields.deep_view(), key@) == Some(v@),
            None => spec_lookup_field(fields.deep_view(), key@) is None,
        },
{
    let n = fields.len();
    let mut i: usize = 0;
    proof {
        assert(fields.deep_view().subrange(0, n as int) =~= fields.deep_view());
    }
    while i < n
        invariant
            i <= n,
            n == fields@.len(),
            n == fields.deep_view().len(),
            spec_lookup_field(fields.deep_view(), key@) == spec_lookup_field(
                fields.deep_view().subrange(i as int, n as int),
                key@,
            ),
        decreases n - i,
    {
        proof {
            let dv = fields.deep_view();
            assert(dv.subrange(i as int, n as int)[0] == dv[i as int]);
            assert(dv.subrange(i as int, n as int).drop_first() =~= dv.subrange(
                i as int + 1,
                n as int,
            ));
            assert(dv[i as int] == fields@[i as int].deep_view());
        }
        if fields[i].0.eq(key) {
            return Some(&fields[i].1);
        }
        i += 1;
    }
    proof {
        assert(fields.deep_view().subrange(n as int, n as int) =~= Seq::<(
            Seq<char>,
            Seq<char>,
        )>::empty());
    }
    None
}

/// Reads an entry back out of backend record fields.  `None` exactly where
/// either required URL field is missing.
pub fn entry_from_fields(fields: &Vec<(String, String)>) -> (r: Option<CacheEntry>)
    ensures
        match r {
            Some(e) => spec_entry_of_fields(fields.deep_view()) == Some(e@),
            None => spec_entry_of_fields(fields.deep_view()) is None,
        },
{
    let left_key = String::from_str("left_image");
    let right_key = String::from_str("right_image");
    let left_label_key = String::from_str("left_label");
    let right_label_key = String::from_str("right_label");
    match (lookup_field(fields, &left_key), lookup_field(fields, &right_key)) {
        (Some(l), Some(r)) => Some(
            CacheEntry {
                left_image_url: l.clone(),
                right_image_url: r.clone(),
                left_image_label: match lookup_field(fields, &left_label_key) {
                    Some(v) => Some(v.clone()),
                    None => None,
                },
                right_image_label: match lookup_field(fields, &right_label_key) {
                    Some(v) => Some(v.clone()),
                    None => None,
                },
            },
        ),
        _ => None,
    }
}

/// Record layout law: reading an entry's field layout back yields the
/// entry, labels included where present.
pub proof fn lemma_fields_round_trip(e: EntryModel)
    ensures
        spec_entry_of_fields(spec_entry_fields(e)) == Some(e),
{
    reveal_strlit("left_image");
    reveal_strlit("right_image");
    reveal_strlit("left_label");
    reveal_strlit("right_label");
    let fields = spec_entry_fields(e);
    reveal_with_fuel(spec_lookup_field, 5);
    // A witness position where each label key differs from the URL key of
    // equal length.
    assert("left_label"@[5] != "left_image"@[5] && "right_label"@[6] != "right_image"@[6]);
    assert(spec_lookup_field(fields, "left_image"@) == Some(e.left_image_url));
    assert(spec_lookup_field(fields, "right_image"@) == Some(e.right_image_url));
    assert(spec_lookup_field(fields, "left_label"@) == e.left_image_label);
    assert(spec_lookup_field(fields, "right_label"@) == e.right_image_label);
}

/// Idempotent population law: an entry's stored expiry is a function of the
/// entry alone, so two successful `set` calls with the same entry under the
/// same token write the same record, and the cache after the second call is
/// the cache after the first — `get` and `get_expiry` read back identically
/// after either.
pub proof fn lemma_set_idempotent(
    m: Map<Seq<char>, RecordModel>,
    token: Seq<char>,
    e: EntryModel,
    expire_unix_ts: u64,
)
    requires
        Some(expire_unix_ts) == spec_entry_expiry(e),
    ensures
        ({
            let rec = RecordModel { entry: e, expire_unix_ts };
            let once = m.insert(token, rec);
            &&& once.insert(token, rec) == once
            &&& once[token] == rec
        }),
{
    let rec = RecordModel { entry: e, expire_unix_ts };
    assert(m.insert(token, rec).insert(token, rec) =~= m.insert(token, rec));
}

} // verus!
