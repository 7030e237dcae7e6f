use wxr_validator::chars::{contains_control_chars, is_flagged_char};

#[test]
fn tab_newline_and_carriage_return_are_not_flagged() {
    assert!(!is_flagged_char('\t'));
    assert!(!is_flagged_char('\n'));
    assert!(!is_flagged_char('\r'));
    assert!(!contains_control_chars("hello\tworld\r\n"));
}

#[test]
fn vertical_tab_and_form_feed_are_whitespace() {
    assert!(!is_flagged_char('\u{0B}'));
    assert!(!is_flagged_char('\u{0C}'));
}

#[test]
fn nul_and_bel_are_flagged() {
    assert!(is_flagged_char('\u{0}'));
    assert!(is_flagged_char('\u{7}'));
    assert!(contains_control_chars("\u{7}beep"));
    assert!(contains_control_chars("bad\u{1}char"));
}

#[test]
fn delete_and_c1_controls_are_flagged() {
    assert!(is_flagged_char('\u{7F}'));
    assert!(is_flagged_char('\u{80}'));
    assert!(is_flagged_char('\u{84}'));
    assert!(is_flagged_char('\u{86}'));
    assert!(is_flagged_char('\u{9F}'));
    assert!(contains_control_chars("caf\u{E9}\u{9B}"));
}

#[test]
fn next_line_is_a_control_but_whitespace() {
    assert!('\u{85}'.is_control());
    assert!(!is_flagged_char('\u{85}'));
    assert!(!contains_control_chars("a\u{85}b"));
}

#[test]
fn printable_and_non_ascii_text_is_not_flagged() {
    assert!(!contains_control_chars(""));
    assert!(!contains_control_chars("plain text"));
    assert!(!contains_control_chars("caf\u{E9} \u{3000}\u{A0}\u{2028}"));
    assert!(!is_flagged_char(' '));
    assert!(!is_flagged_char('\u{A0}'));
    assert!(!is_flagged_char('\u{10FFFF}'));
}

#[test]
fn flagged_code_points_are_exactly_four_ranges() {
    let mut n: u32 = 0;
    while n <= 0x10FFFF {
        if let Some(c) = char::from_u32(n) {
            let expected = n <= 0x08
                || (0x0E <= n && n <= 0x1F)
                || (0x7F <= n && n <= 0x84)
                || (0x86 <= n && n <= 0x9F);
            assert_eq!(is_flagged_char(c), expected, "code point {:#x}", n);
        }
        n += 1;
    }
}

#[test]
fn a_single_flagged_code_point_anywhere_flags_the_text() {
    assert!(contains_control_chars("\u{1}abc"));
    assert!(contains_control_chars("abc\u{1}"));
    assert!(contains_control_chars("a\tb\u{1B}c\n"));
    assert!(!contains_control_chars("a\tb c\n"));
}
