use nocelium::text::{chars_of, decimal_string, join_strings, signed_decimal_string, split_chars, trim_str};

#[test]
fn decimal_text() {
    assert_eq!(decimal_string(0), "0");
    assert_eq!(decimal_string(7), "7");
    assert_eq!(decimal_string(54321), "54321");
    assert_eq!(decimal_string(u64::MAX), u64::MAX.to_string());
}

#[test]
fn signed_decimal_text() {
    assert_eq!(signed_decimal_string(-5), "-5");
    assert_eq!(signed_decimal_string(0), "0");
    assert_eq!(signed_decimal_string(i64::MIN), i64::MIN.to_string());
    assert_eq!(signed_decimal_string(i64::MAX), i64::MAX.to_string());
}

#[test]
fn split_like_str_split() {
    for s in ["a:b:c", "", ":", "a::", "::x", "no-sep"] {
        let parts: Vec<String> = split_chars(&chars_of(s), ':').iter().map(|p| p.iter().collect()).collect();
        let expected: Vec<String> = s.split(':').map(|p| p.to_string()).collect();
        assert_eq!(parts, expected);
    }
}

#[test]
fn join_with_separator() {
    let parts = vec!["a".to_string(), "".to_string(), "c".to_string()];
    assert_eq!(join_strings(&parts, '\n'), "a\n\nc");
    assert_eq!(join_strings(&vec![], ','), "");
}

#[test]
fn trim_like_str_trim() {
    for s in ["  x  ", "\t\n30m\u{3000}", "", "   ", "a b", "\u{85}y\u{a0}"] {
        assert_eq!(trim_str(s), s.trim());
    }
}
