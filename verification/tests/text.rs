use skill_tts::text::{decimal, ends_with, hex, is_white_space, same_text, trim};

#[test]
fn decimal_has_no_leading_zeros() {
    assert_eq!(decimal(0), "0");
    assert_eq!(decimal(9), "9");
    assert_eq!(decimal(10), "10");
    assert_eq!(decimal(1_048_576), "1048576");
    assert_eq!(decimal(u64::MAX), "18446744073709551615");
}

#[test]
fn hex_writes_high_digit_first() {
    assert_eq!(hex(&[]), "");
    assert_eq!(hex(&[0x00, 0x0f, 0xf0, 0xa9, 0xff]), "000ff0a9ff");
}

#[test]
fn hex_tells_bytes_apart() {
    for a in 0..=255u8 {
        for b in 0..=255u8 {
            assert_eq!(hex(&[a]) == hex(&[b]), a == b);
        }
    }
}

#[test]
fn suffix_counts_characters() {
    assert!(ends_with("model.gguf", ".gguf"));
    assert!(ends_with(".gguf", ".gguf"));
    assert!(ends_with("größe.gguf", ".gguf"));
    assert!(ends_with("x", ""));
    assert!(!ends_with("gguf", ".gguf"));
    assert!(!ends_with("model.GGUF", ".gguf"));
    assert!(!ends_with("model.gguf.bak", ".gguf"));
}

#[test]
fn white_space_agrees_with_std() {
    for n in 0..=0x10ffffu32 {
        if let Some(c) = char::from_u32(n) {
            assert_eq!(is_white_space(c), c.is_whitespace(), "{n:x}");
        }
    }
}

#[test]
fn trim_agrees_with_std() {
    for s in ["", " ", "\t\n x", "x \u{3000}", " a b ", "\u{a0}ä\u{2003}", "none", "\r\n"] {
        assert_eq!(trim(s), s.trim());
    }
}

#[test]
fn same_text_compares_characters() {
    assert!(same_text("jo", "jo"));
    assert!(!same_text("jo", "Jo"));
    assert!(same_text("", ""));
}
