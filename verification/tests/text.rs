use rocade::text::{
    ascii_lowercase, char_is_whitespace, chars_of, contains_chars, list_contains, parse_i64_in,
    push_decimal, push_signed_decimal, push_unique, scan, scan_back, slice_is, string_of,
    strip_bounds, CharClass,
};

fn parse(s: &str) -> Option<i64> {
    let v = chars_of(s);
    parse_i64_in(&v, 0, v.len())
}

#[test]
fn whitespace_is_what_the_standard_library_calls_whitespace() {
    let mut code: u32 = 0;
    while code <= 0x10FFFF {
        if let Some(c) = char::from_u32(code) {
            assert_eq!(char_is_whitespace(c), c.is_whitespace(), "U+{:04X}", code);
        }
        code += 1;
    }
}

#[test]
fn chars_and_strings_round_trip() {
    let v = chars_of("héllo wörld");
    assert_eq!(v.len(), 11);
    assert_eq!(v[1], 'é');
    assert_eq!(string_of(&v, 0, v.len()), "héllo wörld");
    assert_eq!(string_of(&v, 6, 11), "wörld");
    assert_eq!(string_of(&v, 3, 3), "");
    assert_eq!(chars_of(""), Vec::<char>::new());
}

#[test]
fn scan_stops_at_the_first_character_outside_the_class() {
    let v = chars_of("  \tabc  d");
    assert_eq!(scan(&v, 0, v.len(), CharClass::Whitespace), 3);
    assert_eq!(scan(&v, 3, v.len(), CharClass::Visible), 6);
    assert_eq!(scan(&v, 3, v.len(), CharClass::Whitespace), 3);
    assert_eq!(scan(&v, 0, v.len(), CharClass::Except('c')), 5);
    assert_eq!(scan(&v, 0, v.len(), CharClass::Except('z')), v.len());
    assert_eq!(scan(&v, 0, v.len(), CharClass::Only(' ')), 2);
    assert_eq!(scan(&v, 4, 4, CharClass::Visible), 4);
    assert_eq!(scan(&v, 3, 5, CharClass::Visible), 5);
}

#[test]
fn scan_back_stops_at_the_last_character_outside_the_class() {
    let v = chars_of("ab.cd.ef  ");
    assert_eq!(scan_back(&v, 0, v.len(), CharClass::Whitespace), 8);
    assert_eq!(scan_back(&v, 0, 8, CharClass::Except('.')), 6);
    assert_eq!(scan_back(&v, 0, 2, CharClass::Except('.')), 0);
    assert_eq!(scan_back(&v, 0, 8, CharClass::Whitespace), 8);
}

#[test]
fn strip_bounds_trim_like_the_standard_library() {
    for s in ["", " ", "a", "  a b  ", "\t\r\nx\u{00A0}", "\u{3000}y z\u{2028}", "   ", "ab"] {
        let v = chars_of(s);
        let (a, b) = strip_bounds(&v, 0, v.len(), CharClass::Whitespace);
        assert_eq!(string_of(&v, a, b), s.trim(), "{:?}", s);
    }
    for s in ["", "\"", "\"\"", "\"12\"", "\"\"a\"b\"\"", "12\"", "\"12", "x"] {
        let v = chars_of(s);
        let (a, b) = strip_bounds(&v, 0, v.len(), CharClass::Only('"'));
        assert_eq!(string_of(&v, a, b), s.trim_matches('"'), "{:?}", s);
    }
}

#[test]
fn parse_i64_agrees_with_the_standard_library() {
    let inputs = [
        "",
        "0",
        "7",
        "-7",
        "+7",
        "+",
        "-",
        "--7",
        "+-7",
        "12a",
        "a12",
        " 12",
        "12 ",
        "1_000",
        "0007",
        "-0",
        "+0",
        "9223372036854775807",
        "9223372036854775808",
        "-9223372036854775808",
        "-9223372036854775809",
        "+9223372036854775807",
        "00000000000000000000000000000009223372036854775807",
        "-00000000000000000000000000000009223372036854775808",
        "99999999999999999999999999999999999999999",
        "-99999999999999999999999999999999999999999",
        "١٢٣",
        "1.5",
        "1e3",
        "0x10",
    ];
    for s in inputs {
        assert_eq!(parse(s), s.parse::<i64>().ok(), "{:?}", s);
    }
}

#[test]
fn parse_i64_reads_a_part_of_the_buffer() {
    let v = chars_of("ab-42cd");
    assert_eq!(parse_i64_in(&v, 2, 5), Some(-42));
    assert_eq!(parse_i64_in(&v, 3, 5), Some(42));
    assert_eq!(parse_i64_in(&v, 2, 6), None);
    assert_eq!(parse_i64_in(&v, 2, 2), None);
    assert_eq!(parse_i64_in(&v, 2, 3), None);
}

#[test]
fn decimal_agrees_with_the_standard_library() {
    for n in [0u64, 1, 9, 10, 11, 99, 100, 12345, 1u64 << 32, u64::MAX - 1, u64::MAX] {
        let mut s = String::from("id=");
        push_decimal(&mut s, n);
        assert_eq!(s, format!("id={}", n));
    }
    for n in [0i64, 1, -1, 10, -10, 440, -440, i64::MAX, i64::MIN, i64::MIN + 1] {
        let mut s = String::new();
        push_signed_decimal(&mut s, n);
        assert_eq!(s, format!("{}", n));
    }
}

#[test]
fn ascii_lowercase_agrees_with_the_standard_library() {
    for s in ["", "Halo", "HALF-LIFE 2", "ÉCOLE Zürich", "@[`{AZaz", "123"] {
        let lower = ascii_lowercase(&chars_of(s));
        assert_eq!(string_of(&lower, 0, lower.len()), s.to_ascii_lowercase());
    }
}

#[test]
fn contains_agrees_with_the_standard_library() {
    let hays = ["", "a", "halo", "half-life", "aaab", "abcabc"];
    let needles = ["", "a", "b", "lo", "halo", "halos", "aab", "cab", "bc", "life", "x"];
    for hay in hays {
        for needle in needles {
            assert_eq!(
                contains_chars(&chars_of(hay), &chars_of(needle)),
                hay.contains(needle),
                "{:?} in {:?}",
                needle,
                hay
            );
        }
    }
}

#[test]
fn slice_is_compares_a_part_of_the_buffer() {
    let v = chars_of("key=value");
    assert!(slice_is(&v, 0, 3, &chars_of("key")));
    assert!(slice_is(&v, 4, 9, &chars_of("value")));
    assert!(!slice_is(&v, 0, 3, &chars_of("kex")));
    assert!(!slice_is(&v, 0, 4, &chars_of("key")));
    assert!(slice_is(&v, 2, 2, &chars_of("")));
}

#[test]
fn push_unique_keeps_the_first_occurrence() {
    let mut list: Vec<String> = Vec::new();
    for s in ["b", "a", "b", "c", "a", ""] {
        push_unique(&mut list, s.to_string());
    }
    assert_eq!(list, vec!["b", "a", "c", ""]);
    assert!(list_contains(&list, &"c".to_string()));
    assert!(list_contains(&list, &String::new()));
    assert!(!list_contains(&list, &"d".to_string()));
}
