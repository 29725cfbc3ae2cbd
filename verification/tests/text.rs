use gix::text::{blank, has_line, is_space, push_decimal, same_text, to_chars, trim};

fn decimal_of(n: u32) -> String {
    let mut out = String::from("#");
    push_decimal(&mut out, n);
    out
}

#[test]
fn white_space_is_what_unicode_says() {
    let mut code: u32 = 0;
    while code <= 0x10FFFF {
        if let Some(c) = char::from_u32(code) {
            assert_eq!(is_space(c), c.is_whitespace(), "U+{:04X}", code);
        }
        code += 1;
    }
}

#[test]
fn white_space_holds_the_usual_characters() {
    for c in [' ', '\t', '\n', '\r', '\u{0B}', '\u{0C}', '\u{85}', '\u{A0}', '\u{3000}'] {
        assert!(is_space(c));
    }
    for c in ['a', '0', '\u{0}', '\u{1b}', '\u{200B}', '\u{FEFF}', '❌'] {
        assert!(!is_space(c));
    }
}

#[test]
fn to_chars_keeps_every_character() {
    assert_eq!(to_chars(""), Vec::<char>::new());
    assert_eq!(to_chars("a✅b"), vec!['a', '✅', 'b']);
}

#[test]
fn trim_cuts_both_ends_and_nothing_else() {
    assert_eq!(trim("  main \n"), "main");
    assert_eq!(trim("feature/x y"), "feature/x y");
    assert_eq!(trim("\t a  b \r\n"), "a  b");
    assert_eq!(trim("\u{3000}origin\u{A0}"), "origin");
    assert_eq!(trim("x"), "x");
}

#[test]
fn trim_of_blank_text_is_empty() {
    assert_eq!(trim(""), "");
    assert_eq!(trim(" \t\r\n"), "");
    assert_eq!(trim("\u{2028}\u{2029}"), "");
}

#[test]
fn trim_agrees_with_std() {
    for sample in [
        "",
        " ",
        "a",
        " a",
        "a ",
        " a b ",
        "\n\nabc\n\n",
        "\u{85}x\u{1680}y\u{2003}",
        "\u{200B} z \u{200B}",
        "✅ done \u{205F}",
    ] {
        assert_eq!(trim(sample), sample.trim(), "{:?}", sample);
    }
}

#[test]
fn blank_means_nothing_but_white_space() {
    assert!(blank(""));
    assert!(blank("   "));
    assert!(blank("\n\t\r\n"));
    assert!(!blank(" M src/lib.rs\n"));
    assert!(!blank("."));
    assert!(!blank("\u{200B}"));
}

#[test]
fn same_text_compares_character_by_character() {
    assert!(same_text("", ""));
    assert!(same_text("✅ Yes (default)", "✅ Yes (default)"));
    assert!(!same_text("✅ Yes (default)", "✅ Yes (default) "));
    assert!(!same_text("abc", "abd"));
    assert!(!same_text("abc", "ab"));
}

#[test]
fn has_line_finds_a_line_whatever_surrounds_it() {
    assert!(has_line("abc123\n", "abc123"));
    assert!(has_line("abc123", "abc123"));
    assert!(has_line("111\n222\n333\n", "222"));
    assert!(has_line("111\n222\n333", "333"));
    assert!(has_line("  111  \n", "111"));
    assert!(has_line("111\r\n222\r\n", "222"));
    assert!(has_line("111\n", " 111\t"));
}

#[test]
fn has_line_wants_the_whole_line() {
    assert!(!has_line("abc123\n", "abc"));
    assert!(!has_line("abc123\n", "abc1234"));
    assert!(!has_line("111\n222\n", "111\n222"));
    assert!(!has_line("11 1\n", "111"));
}

#[test]
fn has_line_knows_no_line_behind_the_last_line_feed() {
    assert!(!has_line("", ""));
    assert!(!has_line("", "abc"));
    assert!(!has_line("abc\n", ""));
    assert!(has_line("\n", ""));
    assert!(has_line("abc\n\n", ""));
    assert!(has_line("abc\n  \ndef\n", " "));
}

#[test]
fn has_line_agrees_with_std() {
    let listings = ["", "\n", "a", "a\n", "a\nb", "a\r\nb\r\n", " a \n\n b", "\n\na", "a\n \n", "\r"];
    let wanted = ["", " ", "a", "b", " a", "b ", "a\nb", "\r"];
    for listing in listings {
        for want in wanted {
            let expected = listing.lines().any(|line| line.trim() == want.trim());
            assert_eq!(has_line(listing, want), expected, "{:?} in {:?}", want, listing);
        }
    }
}

#[test]
fn push_decimal_writes_the_numeral() {
    assert_eq!(decimal_of(0), "#0");
    assert_eq!(decimal_of(2), "#2");
    assert_eq!(decimal_of(9), "#9");
    assert_eq!(decimal_of(10), "#10");
    assert_eq!(decimal_of(305), "#305");
    assert_eq!(decimal_of(4294967295), "#4294967295");
}

#[test]
fn push_decimal_agrees_with_std() {
    for n in [0u32, 1, 9, 10, 11, 99, 100, 101, 1000, 65535, 65536, 1234567890, u32::MAX] {
        assert_eq!(decimal_of(n), format!("#{}", n));
    }
}
