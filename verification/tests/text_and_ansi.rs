use quartz::ansi::strip_ansi;
use quartz::text::{ascii_letter, chars_of, contains, string_of, trim_range, white_space};

#[test]
fn strip_ansi_removes_colour_codes() {
    assert_eq!(strip_ansi("\x1b[31mred\x1b[0m plain"), "red plain");
}

#[test]
fn strip_ansi_escape_swallows_next_char() {
    assert_eq!(strip_ansi("a\x1bXb"), "ab");
    assert_eq!(strip_ansi("x\x1b\x1by"), "xy");
}

#[test]
fn strip_ansi_unterminated_sequences() {
    assert_eq!(strip_ansi("abc\x1b"), "abc");
    assert_eq!(strip_ansi("abc\x1b["), "abc");
    assert_eq!(strip_ansi("ok\x1b[12;3"), "ok");
}

#[test]
fn strip_ansi_sequence_ends_at_letter() {
    assert_eq!(strip_ansi("\x1b[2K\x1b[1Gdone"), "done");
    assert_eq!(strip_ansi("\x1b[?25hshown"), "shown");
}

#[test]
fn strip_ansi_keeps_plain_text() {
    assert_eq!(strip_ansi("héllo ✓ [x]"), "héllo ✓ [x]");
    assert_eq!(strip_ansi(""), "");
}

#[test]
fn strip_ansi_is_idempotent_on_example() {
    let once = strip_ansi("\x1b[1;32m? \x1b[0mName: \x1bZmod\x1b[K");
    assert_eq!(once, "? Name: mod");
    assert_eq!(strip_ansi(&once), once);
}

#[test]
fn white_space_matches_std() {
    for c in ['\t', '\n', '\u{b}', '\u{c}', '\r', ' ', '\u{85}', '\u{a0}', '\u{1680}', '\u{2000}', '\u{200a}', '\u{2028}', '\u{2029}', '\u{202f}', '\u{205f}', '\u{3000}', 'a', 'x', '*', '\u{200b}', '\u{180e}', '\u{feff}'] {
        assert_eq!(white_space(c), c.is_whitespace(), "{:?}", c);
    }
}

#[test]
fn ascii_letter_matches_std() {
    for c in ['a', 'z', 'A', 'Z', 'm', '0', '[', '@', '`', '{', 'é'] {
        assert_eq!(ascii_letter(c), c.is_ascii_alphabetic());
    }
}

#[test]
fn trim_range_matches_std_trim() {
    for s in ["  a b  ", "\t\n", "", "x", " \u{3000}y\u{a0}"] {
        let v = chars_of(s);
        let (a, b) = trim_range(&v, 0, v.len());
        assert_eq!(string_of(&v, a, b), s.trim());
    }
}

#[test]
fn chars_round_trip() {
    let v = chars_of("ab✓");
    assert_eq!(v, vec!['a', 'b', '✓']);
    assert_eq!(string_of(&v, 0, v.len()), "ab✓");
    assert_eq!(string_of(&v, 1, 2), "b");
}

#[test]
fn contains_finds_text() {
    let h = chars_of("? Description: ");
    assert!(contains(&h, &chars_of("Description")));
    assert!(contains(&h, &chars_of("")));
    assert!(!contains(&h, &chars_of("Location:")));
    assert!(!contains(&chars_of("ab"), &chars_of("abc")));
}
