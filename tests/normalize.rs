use codecs::normalize_encoding_name;

#[test]
fn normalize_folds_capitals() {
    assert_eq!(normalize_encoding_name("UTF8"), "utf8");
}

#[test]
fn normalize_hyphenates_spaces() {
    assert_eq!(normalize_encoding_name("Latin 1"), "latin-1");
}

#[test]
fn normalize_keeps_normal_names() {
    assert_eq!(normalize_encoding_name("utf-8"), "utf-8");
    assert_eq!(normalize_encoding_name(""), "");
}

#[test]
fn normalize_is_idempotent_on_examples() {
    for name in ["UTF8", "Latin 1", "utf-8", "ISO 8859 1", "mIxEd CaSe", "ÄÖ X"] {
        let once = normalize_encoding_name(name);
        assert_eq!(normalize_encoding_name(&once), once);
    }
}

#[test]
fn normalize_leaves_non_ascii_alone() {
    assert_eq!(normalize_encoding_name("Ä B"), "Ä-b");
    assert_eq!(normalize_encoding_name("ab CD"), "ab-cd");
}
