use nova_launcher::text::{blank, decimal_string, same_text, trim, trimmed_string};

#[test]
fn trimming_follows_unicode_white_space() {
    assert_eq!(trim("  a b \t\n"), "a b");
    assert_eq!(trim("\u{3000}x\u{00a0}"), "x");
    assert_eq!(trim("   "), "");
    assert_eq!(trim(""), "");
    assert_eq!(trimmed_string(" é "), "é");
    assert!(blank(" \r\n"));
    assert!(!blank(" . "));
}

#[test]
fn decimals() {
    assert_eq!(decimal_string(0), "0");
    assert_eq!(decimal_string(7), "7");
    assert_eq!(decimal_string(432), "432");
    assert_eq!(decimal_string(u64::MAX), u64::MAX.to_string());
}

#[test]
fn text_equality() {
    assert!(same_text("release", "release"));
    assert!(!same_text("release", "Release"));
}

#[test]
fn white_space_matches_every_char() {
    for code in 0u32..=0x10ffff {
        if let Some(c) = char::from_u32(code) {
            let single = c.to_string();
            assert_eq!(trim(&single), single.trim(), "char {:#x}", code);
            let padded = format!("a{c}b{c}");
            assert_eq!(trim(&padded), padded.trim(), "char {:#x}", code);
        }
    }
}
