use findr::count::{count, format_field, is_white_space, Columns, CountError, FileInfo};

#[test]
fn test_count() {
    let text = "I don't want the world.\nI just want your half.\r\n";
    let info = count(text.as_bytes());
    assert!(info.is_ok());

    let expected = FileInfo {
        num_lines: 2,
        num_words: 10,
        num_chars: 48,
        num_bytes: 48,
    };

    assert_eq!(info.unwrap(), expected);
}

#[test]
fn test_format_field() {
    assert_eq!(format_field(1, false), "");
    assert_eq!(format_field(3, true), "       3");
    assert_eq!(format_field(10, true), "      10");
}

#[test]
fn count_empty_input() {
    let expected = FileInfo { num_lines: 0, num_words: 0, num_bytes: 0, num_chars: 0 };
    assert_eq!(count(b"").unwrap(), expected);
}

#[test]
fn count_last_line_without_newline() {
    let expected = FileInfo { num_lines: 2, num_words: 3, num_bytes: 11, num_chars: 11 };
    assert_eq!(count(b"one\ntwo six").unwrap(), expected);
}

#[test]
fn count_multibyte_characters_and_unicode_spaces() {
    // "héllo", a no-break space, "wörld", a newline
    let text = "h\u{e9}llo\u{a0}w\u{f6}rld\n";
    let expected = FileInfo { num_lines: 1, num_words: 2, num_bytes: 15, num_chars: 12 };
    assert_eq!(count(text.as_bytes()).unwrap(), expected);
}

#[test]
fn count_rejects_invalid_utf8() {
    assert_eq!(count(&[b'a', 0xff, b'\n']), Err(CountError::InvalidUtf8));
}

#[test]
fn white_space_agrees_with_char_is_whitespace() {
    for u in 0u32..0x3100 {
        if let Some(c) = char::from_u32(u) {
            assert_eq!(is_white_space(c), c.is_whitespace(), "U+{u:04X}");
        }
    }
}

#[test]
fn format_field_wide_value() {
    assert_eq!(format_field(123456789, true), "123456789");
    assert_eq!(format_field(0, true), "       0");
}

#[test]
fn columns_default_to_lines_words_bytes() {
    let none = Columns { lines: false, words: false, bytes: false, chars: false };
    assert_eq!(none.resolve(), Columns { lines: true, words: true, bytes: true, chars: false });
    let chars = Columns { lines: false, words: false, bytes: false, chars: true };
    assert_eq!(chars.resolve(), chars);
}

#[test]
fn totals_add_up() {
    let a = FileInfo { num_lines: 2, num_words: 10, num_bytes: 48, num_chars: 48 };
    let b = FileInfo { num_lines: 1, num_words: 3, num_bytes: 11, num_chars: 9 };
    let expected = FileInfo { num_lines: 3, num_words: 13, num_bytes: 59, num_chars: 57 };
    assert_eq!(a.add(&b), expected);
}
