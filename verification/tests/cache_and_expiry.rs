use juxtapose::cache::{
    entry_expiry, entry_from_fields, entry_to_fields, CacheEntry, CacheError, ResolutionCache,
};
use juxtapose::expiry::{embedded_expiry, find_byte, hex_value};

fn entry(left: &str, right: &str) -> CacheEntry {
    CacheEntry {
        left_image_url: left.to_string(),
        right_image_url: right.to_string(),
        left_image_label: None,
        right_image_label: None,
    }
}

fn labelled_entry(left: &str, right: &str, ll: Option<&str>, rl: Option<&str>) -> CacheEntry {
    CacheEntry {
        left_image_url: left.to_string(),
        right_image_url: right.to_string(),
        left_image_label: ll.map(str::to_string),
        right_image_label: rl.map(str::to_string),
    }
}

#[test]
fn hex_value_known_values() {
    assert_eq!(hex_value(b"65"), Some(0x65));
    assert_eq!(hex_value(b"0"), Some(0));
    assert_eq!(hex_value(b"ff"), Some(255));
    assert_eq!(hex_value(b"FF"), Some(255));
    assert_eq!(hex_value(b"DeadBeef"), Some(0xdeadbeef));
    assert_eq!(hex_value(b"ffffffffffffffff"), Some(u64::MAX));
}

#[test]
fn hex_value_rejects_non_hex() {
    assert_eq!(hex_value(b""), None);
    assert_eq!(hex_value(b"g"), None);
    assert_eq!(hex_value(b"1 2"), None);
    assert_eq!(hex_value(b"+50"), None);
    // One digit past 64 bits overflows.
    assert_eq!(hex_value(b"10000000000000000"), None);
}

#[test]
fn find_byte_finds_first_occurrence() {
    assert_eq!(find_byte(b"a?b?c", b'?'), 1);
    assert_eq!(find_byte(b"abc", b'?'), 3);
    assert_eq!(find_byte(b"", b'?'), 0);
}

#[test]
fn embedded_expiry_reads_ex_parameter() {
    assert_eq!(embedded_expiry(b"https://cdn.example/a.png?ex=65&is=1&hm=aa"), Some(0x65));
    assert_eq!(embedded_expiry(b"https://cdn.example/a.png?is=1&ex=50"), Some(0x50));
    assert_eq!(embedded_expiry(b"https://cdn.example/a.png?ex=65#frag"), Some(0x65));
}

#[test]
fn embedded_expiry_takes_first_ex_pair() {
    assert_eq!(embedded_expiry(b"u?ex=10&ex=20"), Some(0x10));
}

#[test]
fn embedded_expiry_matches_whole_key_only() {
    assert_eq!(embedded_expiry(b"u?exx=10"), None);
    assert_eq!(embedded_expiry(b"u?e=10"), None);
}

#[test]
fn embedded_expiry_rejects_missing_or_bad_values() {
    assert_eq!(embedded_expiry(b"https://cdn.example/a.png"), None);
    assert_eq!(embedded_expiry(b"u?is=1&hm=aa"), None);
    assert_eq!(embedded_expiry(b"u?ex="), None);
    assert_eq!(embedded_expiry(b"u?ex"), None);
    assert_eq!(embedded_expiry(b"u?ex=zz"), None);
    // The fragment is no part of the query.
    assert_eq!(embedded_expiry(b"u#?ex=65"), None);
    assert_eq!(embedded_expiry(b"u?is=1#ex=65"), None);
}

#[test]
fn entry_expiry_is_minimum_of_both_urls() {
    let e = entry("https://l.example/a.png?ex=65", "https://r.example/b.png?ex=50");
    assert_eq!(entry_expiry(&e), Some(0x50));

    let e = entry("https://l.example/a.png?ex=50", "https://r.example/b.png?ex=65");
    assert_eq!(entry_expiry(&e), Some(0x50));
}

#[test]
fn entry_expiry_requires_both_urls() {
    let e = entry("https://l.example/a.png?ex=65", "https://r.example/b.png");
    assert_eq!(entry_expiry(&e), None);
    let e = entry("https://l.example/a.png", "https://r.example/b.png?ex=65");
    assert_eq!(entry_expiry(&e), None);
}

#[test]
fn cache_set_stores_minimum_expiry() {
    let mut cache = ResolutionCache::new();
    let e = entry("https://l.example/a.png?ex=65", "https://r.example/b.png?ex=50");
    let ts = cache.set("token", e).expect("both URLs carry an expiry");
    assert_eq!(ts, 0x50);
    assert_eq!(cache.get_expiry("token"), Ok(0x50));
}

#[test]
fn cache_get_returns_what_set_stored() {
    let mut cache = ResolutionCache::new();
    assert!(cache.get("token").is_none());

    let e = labelled_entry(
        "https://l.example/a.png?ex=65",
        "https://r.example/b.png?ex=50",
        Some("before"),
        None,
    );
    cache.set("token", e).unwrap();

    let got = cache.get("token").expect("the record was just stored");
    assert_eq!(got.left_image_url, "https://l.example/a.png?ex=65");
    assert_eq!(got.right_image_url, "https://r.example/b.png?ex=50");
    assert_eq!(got.left_image_label.as_deref(), Some("before"));
    assert_eq!(got.right_image_label, None);
    assert!(cache.get("other").is_none());
}

#[test]
fn cache_set_twice_is_idempotent() {
    let mut cache = ResolutionCache::new();
    let e = labelled_entry(
        "https://l.example/a.png?ex=65",
        "https://r.example/b.png?ex=50",
        Some("left"),
        Some("right"),
    );
    let ts1 = cache.set("token", e.clone()).unwrap();
    let first = cache.get("token").unwrap().clone();

    let ts2 = cache.set("token", e).unwrap();
    let second = cache.get("token").unwrap();

    assert_eq!(ts1, ts2);
    assert_eq!(first.left_image_url, second.left_image_url);
    assert_eq!(first.right_image_url, second.right_image_url);
    assert_eq!(first.left_image_label, second.left_image_label);
    assert_eq!(first.right_image_label, second.right_image_label);
    assert_eq!(cache.get_expiry("token"), Ok(ts1));
}

#[test]
fn cache_set_without_expiry_fails_and_writes_nothing() {
    let mut cache = ResolutionCache::new();
    let e = entry("https://l.example/a.png?ex=65", "https://r.example/b.png");
    assert_eq!(cache.set("token", e), Err(CacheError::Internal));
    assert!(cache.get("token").is_none());
}

#[test]
fn fields_layout_and_order() {
    let e = labelled_entry("L?ex=1", "R?ex=2", Some("ll"), Some("rl"));
    let fields = entry_to_fields(&e);
    assert_eq!(
        fields,
        vec![
            ("left_image".to_string(), "L?ex=1".to_string()),
            ("right_image".to_string(), "R?ex=2".to_string()),
            ("left_label".to_string(), "ll".to_string()),
            ("right_label".to_string(), "rl".to_string()),
        ]
    );

    let bare = entry("L?ex=1", "R?ex=2");
    let fields = entry_to_fields(&bare);
    assert_eq!(fields.len(), 2);
    assert_eq!(fields[0].0, "left_image");
    assert_eq!(fields[1].0, "right_image");
}

#[test]
fn fields_round_trip() {
    let e = labelled_entry("L?ex=1", "R?ex=2", Some("ll"), None);
    let back = entry_from_fields(&entry_to_fields(&e)).expect("both URL fields are present");
    assert_eq!(back.left_image_url, e.left_image_url);
    assert_eq!(back.right_image_url, e.right_image_url);
    assert_eq!(back.left_image_label, e.left_image_label);
    assert_eq!(back.right_image_label, e.right_image_label);
}

#[test]
fn fields_without_required_url_yield_nothing() {
    let fields = vec![
        ("left_image".to_string(), "L".to_string()),
        ("left_label".to_string(), "ll".to_string()),
    ];
    assert!(entry_from_fields(&fields).is_none());
    assert!(entry_from_fields(&Vec::new()).is_none());
}
