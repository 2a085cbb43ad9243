use xareon::error::AppError;
use xareon::domain::genre::normalize;
use xareon::repositories::game_process::normalize_path;
use xareon::text::{char_is_whitespace, ends_with, hex_lower, i64_text, is_blank, padded_i64_text, replace_char, trim, u64_text};
use xareon::validation::{require_in_range, require_non_empty};

#[test]
fn trim_cuts_unicode_white_space_on_both_ends() {
    assert_eq!(trim("  hello world \t\n"), "hello world");
    assert_eq!(trim("\u{3000}x\u{a0}"), "x");
    assert_eq!(trim("   "), "");
    assert_eq!(trim(""), "");
    assert_eq!(trim("a b"), "a b");
}

#[test]
fn blank_text_is_only_white_space() {
    assert!(is_blank(""));
    assert!(is_blank(" \t\r\n"));
    assert!(!is_blank(" x "));
}

#[test]
fn decimal_text_matches_display() {
    for n in [0i64, 7, 10, 99, 100, 12345, -1, -10, -987, i64::MAX, i64::MIN] {
        assert_eq!(i64_text(n), n.to_string());
    }
    assert_eq!(u64_text(u64::MAX), u64::MAX.to_string());
}

#[test]
fn padded_years_match_zero_padded_format() {
    for y in [0i64, 7, 42, 999, 2024, 12345, -5, -123, -1234] {
        assert_eq!(padded_i64_text(y, 4), format!("{y:04}"));
    }
}

#[test]
fn hex_is_lowercase_two_digits_per_byte() {
    assert_eq!(hex_lower(&[0x00, 0x0f, 0xa5, 0xff]), "000fa5ff");
    assert_eq!(hex_lower(&[]), "");
}

#[test]
fn suffix_replace_and_lowercase() {
    assert!(ends_with("game.exe", ".exe"));
    assert!(!ends_with("game.exe.txt", ".exe"));
    assert!(!ends_with("exe", ".exe"));
    assert_eq!(normalize_path("C:/Games/a.exe"), "c:\\games\\a.exe");
    assert_eq!(normalize(" GaMe ÄÖ "), "game äö");
}

#[test]
fn required_fields_must_not_be_blank() {
    assert_eq!(require_non_empty("title", "  Zelda "), Ok(()));
    assert_eq!(
        require_non_empty("title", " \t "),
        Err(AppError::Validation("title must not be empty".to_string()))
    );
}

#[test]
fn optional_numbers_must_lie_in_range() {
    assert_eq!(require_in_range("rating", None, 0, 10), Ok(()));
    assert_eq!(require_in_range("rating", Some(0), 0, 10), Ok(()));
    assert_eq!(require_in_range("rating", Some(10), 0, 10), Ok(()));
    assert_eq!(
        require_in_range("rating", Some(11), 0, 10),
        Err(AppError::Validation("rating must be between 0 and 10".to_string()))
    );
    assert_eq!(
        require_in_range("x", Some(-20), -5, 5),
        Err(AppError::Validation("x must be between -5 and 5".to_string()))
    );
}

#[test]
fn error_messages_match_the_frontend_text() {
    assert_eq!(AppError::NotFound.message(), "not found");
    assert_eq!(AppError::Validation("bad".into()).message(), "validation error: bad");
    assert_eq!(AppError::Database("locked".into()).message(), "database error: locked");
    assert_eq!(AppError::Io("gone".into()).message(), "file error: gone");
    assert_eq!(AppError::Json("eof".into()).message(), "invalid sync metadata: eof");
}

#[test]
fn replacing_a_character_changes_only_that_character() {
    assert_eq!(replace_char("C:/Games/a.exe", '/', "\\"), "C:\\Games\\a.exe");
    assert_eq!(replace_char("ä/ö", '/', " — "), "ä — ö");
    assert_eq!(replace_char("no slash", '/', "x"), "no slash");
    assert_eq!(replace_char("//", '/', ""), "");
    assert_eq!(replace_char("", '/', "x"), "");
}

#[test]
fn every_unicode_white_space_character_is_trimmed() {
    let spaces = "\t\n\u{b}\u{c}\r \u{85}\u{a0}\u{1680}\u{2000}\u{2005}\u{200a}\u{2028}\u{2029}\u{202f}\u{205f}\u{3000}";
    assert_eq!(spaces.chars().count(), 17);
    assert!(is_blank(spaces));
    assert_eq!(trim(&format!("{spaces}x{spaces}")), "x");
    // Zero-width space and byte order mark are not white space.
    assert_eq!(trim("\u{200b}x\u{feff}"), "\u{200b}x\u{feff}");
}

#[test]
fn white_space_matches_the_standard_library_for_every_character() {
    for c in (0u32..=0x10FFFF).filter_map(char::from_u32) {
        assert_eq!(char_is_whitespace(c), c.is_whitespace(), "{c:?}");
    }
}
