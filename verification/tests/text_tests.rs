use incogt::session::is_affirmative;
use incogt::text::{enclose, join, join_lines, str_eq, white_space};

#[test]
fn white_space_is_what_the_standard_library_trims() {
    for code in 0..=0x10FFFFu32 {
        if let Some(c) = char::from_u32(code) {
            assert_eq!(white_space(c), c.is_whitespace(), "U+{:04X}", code);
        }
    }
}

#[test]
fn white_space_holds_the_usual_and_the_unusual() {
    for c in ['\t', '\n', '\u{b}', '\u{c}', '\r', ' ', '\u{85}', '\u{a0}', '\u{1680}'] {
        assert!(white_space(c));
    }
    for c in ['\u{2000}', '\u{200a}', '\u{2028}', '\u{2029}', '\u{202f}', '\u{205f}', '\u{3000}'] {
        assert!(white_space(c));
    }
    for c in ['y', 'Y', '0', '\0', '\u{8}', '\u{e}', '\u{1f}', '\u{200b}', '\u{feff}', '\u{180e}'] {
        assert!(!white_space(c));
    }
}

#[test]
fn any_white_space_around_a_yes_is_set_aside() {
    for code in 0..=0x10FFFFu32 {
        if let Some(c) = char::from_u32(code) {
            let padded = format!("{}{}y{}", c, c, c);
            assert_eq!(is_affirmative(&padded), white_space(c), "U+{:04X}", code);
        }
    }
}

#[test]
fn white_space_inside_an_answer_is_kept() {
    assert!(!is_affirmative("y y"));
    assert!(!is_affirmative("y\ty"));
    assert!(!is_affirmative(" \n "));
}

#[test]
fn joining_puts_the_separator_between_neighbours_only() {
    assert_eq!(join(&[], ", "), "");
    assert_eq!(join(&["a"], ", "), "a");
    assert_eq!(join(&["a", "b", "c"], ", "), "a, b, c");
    assert_eq!(join_lines(&Vec::new(), "; "), "");
    assert_eq!(join_lines(&vec!["a".to_string()], "; "), "a");
    assert_eq!(join_lines(&vec!["a".to_string(), "b".to_string()], "; "), "a; b");
}

#[test]
fn texts_are_compared_and_enclosed_as_written() {
    assert!(str_eq("bash", "bash"));
    assert!(!str_eq("bash", "Bash"));
    assert!(!str_eq("sh", "s"));
    assert_eq!(enclose("<", "x", ">"), "<x>");
}
