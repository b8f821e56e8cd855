use tcp_over_ws_rust::text::{joined, replace, same, starts_with};

#[test]
fn replacing_scans_from_the_left() {
    assert_eq!(replace("aaaa", "aa", "b"), "bb");
    assert_eq!(replace("aaa", "aa", "b"), "ba");
    assert_eq!(replace("xabyabz", "ab", ""), "xyz");
    assert_eq!(replace("", "ab", "c"), "");
    assert_eq!(replace("ab", "abc", "d"), "ab");
}

#[test]
fn replaced_text_is_not_scanned_again() {
    assert_eq!(replace("ab", "a", "aa"), "aab");
    assert_eq!(replace("aab", "ab", "b"), "ab");
}

#[test]
fn characters_are_whole() {
    assert_eq!(replace("grün-grün", "ü", "ue"), "gruen-gruen");
    assert!(starts_with("ünder", "ün"));
    assert!(!starts_with("ü", "ün"));
    assert!(starts_with("x", ""));
}

#[test]
fn comparing_and_joining() {
    assert!(same("grpc", "grpc"));
    assert!(!same("grpc", "grpcs"));
    assert!(!same("grpc", "Grpc"));
    assert_eq!(joined("T-", "0a"), "T-0a");
}
