use krunvm::text::{joined, decimal_string, is_whitespace, trim};

#[test]
fn decimal_rendering() {
    assert_eq!(decimal_string(0), "0");
    assert_eq!(decimal_string(7), "7");
    assert_eq!(decimal_string(10), "10");
    assert_eq!(decimal_string(1024), "1024");
    assert_eq!(decimal_string(u64::MAX), u64::MAX.to_string());
}

#[test]
fn whitespace_matches_std() {
    for c in (0u32..0x3100).filter_map(char::from_u32) {
        assert_eq!(is_whitespace(c), c.is_whitespace(), "{:?}", c);
    }
}

#[test]
fn trim_matches_std() {
    for t in ["", " ", " a ", "\u{2029}b c\u{205f}", "x", "\t\n y"] {
        assert_eq!(trim(t), t.trim());
    }
}

#[test]
fn joined_pieces() {
    assert_eq!(joined("ab", "cd"), "abcd");
}
