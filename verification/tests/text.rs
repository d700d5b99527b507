use nub_cook::text::{
    copies, decimal_text, first_nonempty_line, hex_text, join, nonempty_lines, parse_u64, same_bytes,
    same_text, signed_decimal_text, trim, trim_end,
};

#[test]
fn trim_cuts_unicode_white_space_at_both_ends() {
    assert_eq!(trim("  perry 0.5.1180\n"), "perry 0.5.1180");
    assert_eq!(trim("\u{3000}\u{a0}x y\u{2003}\u{85}"), "x y");
    assert_eq!(trim(" \t\r\n"), "");
    assert_eq!(trim(""), "");
    // The zero-width space is not white space.
    assert_eq!(trim("\u{200b}x"), "\u{200b}x");
    for c in (0..0x11_0000u32).filter_map(char::from_u32) {
        assert_eq!(nub_cook::text::space(c), c.is_whitespace(), "{:x}", c as u32);
    }
}

#[test]
fn trim_end_keeps_the_start() {
    assert_eq!(trim_end("  a b \n\n"), "  a b");
    assert_eq!(trim_end(" \n"), "");
}

#[test]
fn lines_are_trimmed_and_blank_ones_left_out() {
    assert_eq!(nonempty_lines("  a\r\n\n\t\nb b \nc"), vec!["a", "b b", "c"]);
    assert_eq!(nonempty_lines("\n\n"), Vec::<String>::new());
    assert_eq!(nonempty_lines(""), Vec::<String>::new());
    assert_eq!(nonempty_lines("one"), vec!["one"]);
}

#[test]
fn lines_agree_with_the_standard_library() {
    for s in ["a\rb\nc\r\n", "\r\n\r\n x", "a\n\nb\n", "é\u{2028}è\n", "\n \u{a0}\n z"] {
        let expected: Vec<&str> = s.lines().map(str::trim).filter(|l| !l.is_empty()).collect();
        assert_eq!(nonempty_lines(s), expected);
        assert_eq!(first_nonempty_line(s).as_deref(), expected.first().copied());
    }
}

#[test]
fn first_nonempty_line_skips_blank_lines() {
    assert_eq!(first_nonempty_line("\n  \n  ld: boom \nmore").as_deref(), Some("ld: boom"));
    assert_eq!(first_nonempty_line(" \n"), None);
}

#[test]
fn texts_are_joined() {
    let texts = vec!["a".to_string(), "".to_string(), "c".to_string()];
    assert_eq!(join(&texts, ", "), "a, , c");
    assert_eq!(join(&vec!["a".to_string()], ", "), "a");
    assert_eq!(join(&Vec::new(), ", "), "");
}

#[test]
fn numerals_are_written_in_decimal() {
    assert_eq!(decimal_text(0), "0");
    assert_eq!(decimal_text(1_002_003), "1002003");
    assert_eq!(decimal_text(u128::MAX), "340282366920938463463374607431768211455");
    assert_eq!(signed_decimal_text(-7), "-7");
    assert_eq!(signed_decimal_text(i32::MIN), "-2147483648");
    assert_eq!(signed_decimal_text(i32::MAX), "2147483647");
}

#[test]
fn numerals_are_read_as_the_standard_library_reads_them() {
    for s in [
        "0", "50", "+50", "007", "18446744073709551615", "18446744073709551616",
        "99999999999999999999999999999999999999999999", "", "+", "++1", "-1", " 1", "1 ", "1_0",
        "0x10", "１", "000000000000000000000000000000000000000000000001",
        "99999999999999999999999999999999999999999999x",
    ] {
        assert_eq!(parse_u64(s), s.parse::<u64>().ok(), "{s:?}");
    }
}

#[test]
fn a_numeral_is_read_back() {
    for n in [0, 9, 10, 12345, u64::MAX] {
        assert_eq!(parse_u64(&decimal_text(n as u128)), Some(n));
    }
}

#[test]
fn bytes_are_written_in_hexadecimal() {
    assert_eq!(hex_text(&[]), "");
    assert_eq!(hex_text(&[0x00, 0x0f, 0xa9, 0xff]), "000fa9ff");
    assert_ne!(hex_text(&[0x01, 0x02]), hex_text(&[0x10, 0x02]));
}

#[test]
fn texts_and_bytes_are_compared() {
    assert!(same_text("é", "é"));
    assert!(!same_text("e", "é"));
    assert!(same_bytes(b"ab", b"ab"));
    assert!(!same_bytes(b"ab", b"abc"));
    assert!(!same_bytes(b"ab", b"ac"));
}

#[test]
fn texts_are_copied() {
    let texts = vec!["a".to_string(), "".to_string(), "é".to_string()];
    assert_eq!(copies(&texts), texts);
    assert!(copies(&[]).is_empty());
}
