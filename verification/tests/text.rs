use storage::text::{bytes_eq, str_ends_with, str_eq};

#[test]
fn equal_strings() {
    assert!(str_eq("", ""));
    assert!(str_eq("GET", "GET"));
    assert!(str_eq("кот", "кот"));
}

#[test]
fn unequal_strings() {
    assert!(!str_eq("GET", "get"));
    assert!(!str_eq("GET", "GE"));
    assert!(!str_eq("GE", "GET"));
    assert!(!str_eq("", "a"));
    assert!(!str_eq("кот", "кит"));
}

#[test]
fn equal_and_unequal_bytes() {
    assert!(bytes_eq(&[], &[]));
    assert!(bytes_eq(&[1, 2, 3], &[1, 2, 3]));
    assert!(!bytes_eq(&[1, 2, 3], &[1, 2, 4]));
    assert!(!bytes_eq(&[1, 2, 3], &[1, 2]));
}

#[test]
fn suffixes() {
    assert!(str_ends_with("media.example.org", "example.org"));
    assert!(str_ends_with("media.example.org", "media.example.org"));
    assert!(str_ends_with("media.example.org", ""));
    assert!(str_ends_with("", ""));
    assert!(str_ends_with("café", "é"));
}

#[test]
fn not_suffixes() {
    assert!(!str_ends_with("media.example.org", "example.com"));
    assert!(!str_ends_with("example.org", "media.example.org"));
    assert!(!str_ends_with("", "a"));
    assert!(!str_ends_with("media.example.org", "media"));
    assert!(!str_ends_with("cafe", "é"));
}

#[test]
fn suffix_agrees_with_the_standard_library() {
    let words = ["", "a", "org", ".org", "example.org", "xexample.org", "é", "aé", "日本", "本"];
    for s in words {
        for suffix in words {
            assert_eq!(str_ends_with(s, suffix), s.ends_with(suffix), "{:?} {:?}", s, suffix);
        }
    }
}
