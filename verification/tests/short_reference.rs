use juxtapose::gitref::get_short_reference;

#[test]
fn full_hash_is_shortened_to_seven_digits() {
    let hash = "0123456789abcdef0123456789abcdef01234567";
    assert_eq!(hash.len(), 40);
    assert_eq!(get_short_reference(hash), "0123456");

    let upper = "ABCDEF0123456789ABCDEF0123456789ABCDEF01";
    assert_eq!(get_short_reference(upper), "ABCDEF0");
}

#[test]
fn branch_names_pass_through() {
    assert_eq!(get_short_reference("main"), "main");
    assert_eq!(get_short_reference(""), "");
    assert_eq!(get_short_reference("v1.2.3"), "v1.2.3");
}

#[test]
fn forty_characters_of_non_hex_pass_through() {
    let reference = "branch-name-that-happens-to-be-40-chars!";
    assert_eq!(reference.len(), 40);
    assert_eq!(get_short_reference(reference), reference);
}

#[test]
fn thirty_nine_or_forty_one_hex_digits_pass_through() {
    let short = "0123456789abcdef0123456789abcdef0123456";
    assert_eq!(short.len(), 39);
    assert_eq!(get_short_reference(short), short);

    let long = "0123456789abcdef0123456789abcdef012345678";
    assert_eq!(long.len(), 41);
    assert_eq!(get_short_reference(long), long);
}

#[test]
fn non_ascii_references_pass_through() {
    let reference = "héads/0123456789abcdef0123456789abcdef01";
    assert_eq!(get_short_reference(reference), reference);
}
