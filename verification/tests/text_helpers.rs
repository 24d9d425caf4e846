use bs_utility::text::{same_text, trim, with_decimal};

#[test]
fn trims_surrounding_white_space() {
    assert_eq!(trim("  a b \n"), "a b");
    assert_eq!(trim("\u{3000}x\u{00a0}"), "x");
    assert_eq!(trim("abc"), "abc");
    assert_eq!(trim(" \t\n"), "");
    assert_eq!(trim(""), "");
}

#[test]
fn compares_text() {
    assert!(same_text("input", "input"));
    assert!(!same_text("input", "inputs"));
    assert!(!same_text("", "x"));
}

#[test]
fn renders_decimals() {
    assert_eq!(with_decimal("n=", 0), "n=0");
    assert_eq!(with_decimal("", 4294967295), "4294967295");
    assert_eq!(with_decimal("backup ", 1007), "backup 1007");
}

#[test]
fn white_space_agrees_with_std_on_every_char() {
    for v in 0u32..=0x10FFFF {
        if let Some(c) = char::from_u32(v) {
            assert_eq!(bs_utility::text::is_white_space(c), c.is_whitespace(), "U+{:04X}", v);
        }
    }
}
