use asposepdf::text::{
    char_is_whitespace, chars_of, first_word_of, join_strs, push_decimal, push_signed_decimal,
    same_text, split_and_trim, split_bounds, str_is_blank, trim_bounds,
};

fn decimal_of(n: u64) -> String {
    let mut s = String::new();
    push_decimal(&mut s, n);
    s
}

fn signed_decimal_of(n: i64) -> String {
    let mut s = String::new();
    push_signed_decimal(&mut s, n);
    s
}

#[test]
fn decimal_of_small_numbers() {
    assert_eq!(decimal_of(0), "0");
    assert_eq!(decimal_of(7), "7");
    assert_eq!(decimal_of(9), "9");
    assert_eq!(decimal_of(10), "10");
    assert_eq!(decimal_of(12345), "12345");
    assert_eq!(decimal_of(1_000_000), "1000000");
}

#[test]
fn decimal_of_largest_number() {
    assert_eq!(decimal_of(u64::MAX), "18446744073709551615");
}

#[test]
fn decimal_agrees_with_std_formatting() {
    let mut n: u64 = 0;
    while n < 5000 {
        assert_eq!(decimal_of(n), format!("{}", n));
        n += 1;
    }
}

#[test]
fn decimal_appends_to_what_is_there() {
    let mut s = String::from("page ");
    push_decimal(&mut s, 42);
    assert_eq!(s, "page 42");
    push_signed_decimal(&mut s, -3);
    assert_eq!(s, "page 42-3");
}

#[test]
fn signed_decimal_of_negative_numbers() {
    assert_eq!(signed_decimal_of(-1), "-1");
    assert_eq!(signed_decimal_of(-10), "-10");
    assert_eq!(signed_decimal_of(0), "0");
    assert_eq!(signed_decimal_of(2147483647), "2147483647");
    assert_eq!(signed_decimal_of(-2147483648), "-2147483648");
    assert_eq!(signed_decimal_of(i64::MIN), "-9223372036854775808");
    assert_eq!(signed_decimal_of(i64::MAX), "9223372036854775807");
}

#[test]
fn white_space_characters() {
    assert!(char_is_whitespace(' '));
    assert!(char_is_whitespace('\t'));
    assert!(char_is_whitespace('\n'));
    assert!(char_is_whitespace('\r'));
    assert!(char_is_whitespace('\u{000B}'));
    assert!(char_is_whitespace('\u{000C}'));
    assert!(char_is_whitespace('\u{0085}'));
    assert!(char_is_whitespace('\u{00A0}'));
    assert!(char_is_whitespace('\u{1680}'));
    assert!(char_is_whitespace('\u{2000}'));
    assert!(char_is_whitespace('\u{200A}'));
    assert!(char_is_whitespace('\u{2028}'));
    assert!(char_is_whitespace('\u{2029}'));
    assert!(char_is_whitespace('\u{202F}'));
    assert!(char_is_whitespace('\u{205F}'));
    assert!(char_is_whitespace('\u{3000}'));
    assert!(!char_is_whitespace('a'));
    assert!(!char_is_whitespace('0'));
    assert!(!char_is_whitespace(';'));
    assert!(!char_is_whitespace('\u{0008}'));
    assert!(!char_is_whitespace('\u{000E}'));
    assert!(!char_is_whitespace('\u{200B}'));
    assert!(!char_is_whitespace('\u{180E}'));
}

#[test]
fn white_space_agrees_with_std_on_every_character() {
    let mut u: u32 = 0;
    while u <= 0x10FFFF {
        if let Some(c) = char::from_u32(u) {
            assert_eq!(char_is_whitespace(c), c.is_whitespace());
        }
        u += 1;
    }
}

#[test]
fn chars_of_keeps_every_character() {
    assert_eq!(chars_of("a;b"), vec!['a', ';', 'b']);
    assert_eq!(chars_of(""), Vec::<char>::new());
    assert_eq!(chars_of("é—x"), vec!['é', '—', 'x']);
}

#[test]
fn blank_texts() {
    assert!(str_is_blank(""));
    assert!(str_is_blank(" "));
    assert!(str_is_blank(" \t\r\n\u{00A0}"));
    assert!(!str_is_blank(" a "));
    assert!(!str_is_blank(";"));
}

#[test]
fn trim_bounds_of_a_padded_piece() {
    let v = chars_of("ab;  cd  ;e");
    assert_eq!(trim_bounds(&v, 3, 9), (5, 7));
    assert_eq!(trim_bounds(&v, 0, 2), (0, 2));
    assert_eq!(trim_bounds(&v, 3, 5), (5, 5));
    assert_eq!(trim_bounds(&v, 4, 4), (4, 4));
}

#[test]
fn split_bounds_of_three_pieces() {
    let v = chars_of("1-2;3;4-");
    assert_eq!(split_bounds(&v, ';'), vec![(0, 3), (4, 5), (6, 8)]);
    let empty = chars_of("");
    assert_eq!(split_bounds(&empty, ';'), vec![(0, 0)]);
    let only = chars_of(";");
    assert_eq!(split_bounds(&only, ';'), vec![(0, 0), (1, 1)]);
}

#[test]
fn split_and_trim_page_ranges() {
    assert_eq!(split_and_trim("1-2;3;4-", ';'), vec!["1-2", "3", "4-"]);
    assert_eq!(split_and_trim(" 1-2 ;\t3\n; 4- ", ';'), vec!["1-2", "3", "4-"]);
    assert_eq!(split_and_trim("1,3,4", ';'), vec!["1,3,4"]);
    assert_eq!(split_and_trim("", ';'), vec![""]);
    assert_eq!(split_and_trim(";", ';'), vec!["", ""]);
    assert_eq!(split_and_trim("a;;b", ';'), vec!["a", "", "b"]);
    assert_eq!(split_and_trim("a;b;", ';'), vec!["a", "b", ""]);
    assert_eq!(split_and_trim("a ; \u{3000} ; b c ", ';'), vec!["a", "", "b c"]);
}

#[test]
fn split_and_trim_agrees_with_std() {
    let inputs = [
        "1-2;3;4-",
        "  ",
        ";;;",
        " ; a ;b; ",
        "é ; —",
        "no separator",
        "\t1 - 2\t;\n",
    ];
    for input in inputs {
        let expected: Vec<String> = input.split(';').map(|p| p.trim().to_string()).collect();
        assert_eq!(split_and_trim(input, ';'), expected);
    }
}

#[test]
fn first_word_of_a_checksum_file() {
    assert_eq!(first_word_of("abc123  file.bz2\n"), "abc123");
    assert_eq!(first_word_of("  \n abc123\tfile"), "abc123");
    assert_eq!(first_word_of("abc123"), "abc123");
    assert_eq!(first_word_of(""), "");
    assert_eq!(first_word_of(" \n\t"), "");
}

#[test]
fn first_word_agrees_with_std() {
    let inputs = ["a b", "  x", "x  ", "\u{00A0}é—\u{2003}z", "", "   ", "one\ntwo"];
    for input in inputs {
        let expected = input.trim().split_whitespace().next().unwrap_or("");
        assert_eq!(first_word_of(input), expected);
    }
}

#[test]
fn join_puts_the_separator_between() {
    assert_eq!(join_strs(&vec!["a", "b", "c"], ", "), "a, b, c");
    assert_eq!(join_strs(&vec!["a"], ", "), "a");
    assert_eq!(join_strs(&Vec::new(), ", "), "");
    assert_eq!(join_strs(&vec!["", ""], "|"), "|");
}

#[test]
fn same_text_compares_character_for_character() {
    assert!(same_text("abc", "abc"));
    assert!(same_text("", ""));
    assert!(!same_text("abc", "abd"));
    assert!(!same_text("abc", "ab"));
    assert!(!same_text("ABC", "abc"));
}
