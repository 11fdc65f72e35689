use pi_interactive::text::{
    chars_of, eq_ignore_ascii_case, is_white_space, parse_usize, push_usize, same_text,
    split_pieces, trim, trim_end, trim_start,
};

#[test]
fn white_space_is_that_of_unicode() {
    let mut found: Vec<u32> = Vec::new();
    for code in 0..=0x0010_ffff_u32 {
        if let Some(c) = char::from_u32(code) {
            let padded = format!("{c}x{c}");
            let kept = trim(&padded);
            if kept == "x" {
                found.push(code);
            } else {
                assert!(kept == padded || c == 'x');
            }
        }
    }
    let mut expected: Vec<u32> = (0x9..=0xd).collect();
    expected.extend([0x20, 0x85, 0xa0, 0x1680]);
    expected.extend(0x2000..=0x200a);
    expected.extend([0x2028, 0x2029, 0x202f, 0x205f, 0x3000]);
    assert_eq!(found, expected);
}

#[test]
fn trimming() {
    assert_eq!(trim("  a b\u{3000}\n"), "a b");
    assert_eq!(trim_start(" a "), "a ");
    assert_eq!(trim_end(" a "), " a");
    assert_eq!(trim(" \t "), "");
    assert_eq!(trim(""), "");
    assert_eq!(trim(trim(" \u{e9} ")), "\u{e9}");
}

#[test]
fn ascii_case() {
    assert!(eq_ignore_ascii_case("CaNcEl", "cancel"));
    assert!(eq_ignore_ascii_case("\u{e9}A", "\u{e9}a"));
    assert!(!eq_ignore_ascii_case("\u{e9}", "\u{c9}"));
    assert!(!eq_ignore_ascii_case("cance", "cancel"));
    assert!(!eq_ignore_ascii_case("@", "`"));
    assert!(same_text("a", "a"));
    assert!(!same_text("a", "A"));
}

#[test]
fn numbers_are_read_as_the_standard_library_reads_them() {
    let long = "0".repeat(40) + "9";
    for text in [
        "", "+", "-", "0", "7", "+7", "-7", "++7", "007", " 7", "7 ", "1_000", "12a", "\u{664}",
        "18446744073709551615", "18446744073709551616", "99999999999999999999999", long.as_str(),
    ] {
        assert_eq!(parse_usize(text), text.parse::<usize>().ok(), "{text}");
    }
}

#[test]
fn numbers_are_written_in_base_ten() {
    for n in [0, 1, 9, 10, 99, 100, 12_345, usize::MAX] {
        let mut out = "n=".to_string();
        push_usize(&mut out, n);
        assert_eq!(out, format!("n={n}"));
        assert_eq!(parse_usize(&out[2..]), Some(n));
    }
}

#[test]
fn pieces_of_a_text() {
    assert_eq!(split_pieces(" a,b  c ", false), vec!["a,b", "c"]);
    assert_eq!(split_pieces(" a,b  c ", true), vec!["a", "b", "c"]);
    assert_eq!(split_pieces(",, ,", true), Vec::<String>::new());
    assert_eq!(split_pieces("\u{e9}t\u{e9}\u{3000}fin", true), vec!["\u{e9}t\u{e9}", "fin"]);
    assert_eq!(split_pieces("a, b,c", true).concat(), "abc");
}

#[test]
fn characters_of_a_text() {
    assert_eq!(chars_of("a\u{1f600}"), vec!['a', '\u{1f600}']);
}

#[test]
fn white_space_agrees_with_the_standard_library() {
    for code in 0..=0x0010_ffff_u32 {
        if let Some(c) = char::from_u32(code) {
            assert_eq!(is_white_space(c), c.is_whitespace(), "{code:x}");
        }
    }
}
