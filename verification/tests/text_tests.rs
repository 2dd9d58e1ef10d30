use agda_mode::text::{
    chars_of, push_decimal, push_quoted, read_decimal, read_integer, same_text, string_of,
};

#[test]
fn decimal_numerals() {
    let mut out = String::new();
    push_decimal(&mut out, 0);
    assert_eq!(out, "0");
    let mut out = String::from("n=");
    push_decimal(&mut out, 233);
    assert_eq!(out, "n=233");
    let mut out = String::new();
    push_decimal(&mut out, 10);
    assert_eq!(out, "10");
    let mut out = String::new();
    push_decimal(&mut out, 18446744073709551615);
    assert_eq!(out, "18446744073709551615");
}

#[test]
fn quoting_of_every_escaped_character() {
    let mut out = String::new();
    push_quoted(&mut out, "");
    assert_eq!(out, "\"\"");
    let mut out = String::from("x ");
    push_quoted(&mut out, "a\"b");
    assert_eq!(out, "x \"a\\\"b\"");
    let mut out = String::new();
    push_quoted(&mut out, "\\");
    assert_eq!(out, "\"\\\\\"");
    let mut out = String::new();
    push_quoted(&mut out, "\n\r\t");
    assert_eq!(out, "\"\\n\\r\\t\"");
    let mut out = String::new();
    push_quoted(&mut out, "it's \u{e9}");
    assert_eq!(out, "\"it's \u{e9}\"");
}

#[test]
fn characters_and_back() {
    let chars = chars_of("a\u{3bb}c");
    assert_eq!(chars, vec!['a', '\u{3bb}', 'c']);
    assert_eq!(string_of(&chars, 0, 3), "a\u{3bb}c");
    assert_eq!(string_of(&chars, 1, 2), "\u{3bb}");
    assert_eq!(string_of(&chars, 2, 2), "");
    assert_eq!(chars_of(""), Vec::<char>::new());
}

#[test]
fn texts_are_compared_by_their_characters() {
    assert!(same_text("kind", "kind"));
    assert!(!same_text("kind", "Kind"));
    assert!(!same_text("kind", "kinds"));
    assert!(same_text("", ""));
}

#[test]
fn reading_decimal_numerals() {
    let chars = chars_of("x42 007");
    assert_eq!(read_decimal(&chars, 1, 3, 100), Some(42));
    assert_eq!(read_decimal(&chars, 1, 3, 42), Some(42));
    assert_eq!(read_decimal(&chars, 1, 3, 41), None);
    assert_eq!(read_decimal(&chars, 4, 7, 100), Some(7));
    assert_eq!(read_decimal(&chars, 0, 3, 100), None);
    assert_eq!(read_decimal(&chars, 1, 4, 100), None);
    assert_eq!(read_decimal(&chars, 3, 3, 100), None);
    let long = chars_of("99999999999999999999999999");
    assert_eq!(read_decimal(&long, 0, long.len(), 4294967295), None);
    assert_eq!(read_decimal(&long, 0, long.len(), u64::MAX), None);
    let most = chars_of("18446744073709551615");
    assert_eq!(read_decimal(&most, 0, most.len(), u64::MAX), Some(u64::MAX));
    let more = chars_of("18446744073709551616");
    assert_eq!(read_decimal(&more, 0, more.len(), u64::MAX), None);
}

#[test]
fn reading_integers() {
    assert_eq!(read_integer("0", 0, 4294967295), Some(0));
    assert_eq!(read_integer("4294967295", 0, 4294967295), Some(4294967295));
    assert_eq!(read_integer("4294967296", 0, 4294967295), None);
    assert_eq!(read_integer("-1", 0, 4294967295), None);
    assert_eq!(read_integer("-1", -2147483648, 2147483647), Some(-1));
    assert_eq!(read_integer("-2147483648", -2147483648, 2147483647), Some(-2147483648));
    assert_eq!(read_integer("-2147483649", -2147483648, 2147483647), None);
    assert_eq!(read_integer("2147483647", -2147483648, 2147483647), Some(2147483647));
    assert_eq!(read_integer("2147483648", -2147483648, 2147483647), None);
    assert_eq!(read_integer("", -5, 5), None);
    assert_eq!(read_integer("-", -5, 5), None);
    assert_eq!(read_integer("1.0", -5, 5), None);
    assert_eq!(read_integer("+1", -5, 5), None);
    assert_eq!(read_integer("1e2", -500, 500), None);
    assert_eq!(read_integer("-0", -5, 5), Some(0));
    assert_eq!(read_integer("03", -5, 5), Some(3));
    assert_eq!(read_integer("7", 8, 9), None);
    assert_eq!(read_integer("8", 8, 9), Some(8));
    assert_eq!(read_integer("-3", -9, -4), None);
    assert_eq!(read_integer("-4", -9, -4), Some(-4));
    assert_eq!(read_integer("9223372036854775807", i64::MIN, i64::MAX), Some(i64::MAX));
    assert_eq!(read_integer("9223372036854775808", i64::MIN, i64::MAX), None);
    assert_eq!(read_integer("-9223372036854775808", i64::MIN, i64::MAX), Some(i64::MIN));
    assert_eq!(read_integer("-9223372036854775809", i64::MIN, i64::MAX), None);
    assert_eq!(read_integer("5", 9, 1), None);
}
