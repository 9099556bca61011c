use vanilla_backend::string_map::StringMap;
use vanilla_backend::text::chars::{join_texts, same_text, text_between};
use vanilla_backend::text::decimal::{decimal_text, signed_decimal_text};
use vanilla_backend::text::number::{parse_i32, parse_unsigned, NumberError};
use vanilla_backend::text::order::{rank, Rank};
use vanilla_backend::text::search::{contains_text, split_text_at, strip_start};
use vanilla_backend::text::split::{split_text, split_text_once};

fn strings(parts: &[&str]) -> Vec<String> {
    parts.iter().map(|p| p.to_string()).collect()
}

#[test]
fn numbers_are_written_in_decimal() {
    assert_eq!(decimal_text(0), "0");
    assert_eq!(decimal_text(1024), "1024");
    assert_eq!(decimal_text(u128::MAX), u128::MAX.to_string());
    assert_eq!(signed_decimal_text(-7), "-7");
    assert_eq!(signed_decimal_text(i64::MIN), i64::MIN.to_string());
}

#[test]
fn numbers_are_read_as_they_are_written() {
    for n in [i32::MIN, -1, 0, 1, 10, i32::MAX] {
        assert_eq!(parse_i32(&signed_decimal_text(n as i64)), Ok(n));
        assert_eq!(parse_i32(&n.to_string()), Ok(n));
    }
    assert_eq!(parse_unsigned("65535", u16::MAX as u64), Ok(65535));
    assert_eq!(parse_unsigned("+7", 10), Ok(7));
    assert_eq!(parse_i32("+7"), Ok(7));
    assert_eq!(parse_i32("007"), Ok(7));
}

#[test]
fn texts_that_are_no_numbers_are_refused_as_std_does() {
    for text in ["", "+", "-", "1a", " 1", "2147483648", "-2147483649", "99999999999999999999", "--1", "a"] {
        let expected = text.parse::<i32>().map_err(|e| e.to_string());
        let found = parse_i32(text).map_err(|e| e.message());
        assert_eq!(found, expected, "{}", text);
    }
    for text in ["", "+", "-", "-1", "65536", "1 ", "x", "65535", "99999999999x"] {
        let expected = text.parse::<u16>().map(|n| n as u64).map_err(|e| e.to_string());
        let found = parse_unsigned(text, u16::MAX as u64).map_err(|e| e.message());
        assert_eq!(found, expected, "{}", text);
    }
    assert_eq!(parse_unsigned("", 9), Err(NumberError::Empty));
    assert_eq!(parse_unsigned("x", 9), Err(NumberError::InvalidDigit));
    assert_eq!(parse_unsigned("10", 9), Err(NumberError::TooLarge));
    assert_eq!(parse_i32("-3000000000"), Err(NumberError::TooSmall));
}

#[test]
fn texts_are_split_and_joined() {
    assert_eq!(split_text("a:b::c", ':'), strings(&["a", "b", "", "c"]));
    assert_eq!(split_text("", ':'), strings(&[""]));
    assert_eq!(join_texts(&strings(&["a", "b", "c"]), ", "), "a, b, c");
    assert_eq!(join_texts(&Vec::new(), ", "), "");
    assert_eq!(split_text_once("k=v=w", '='), Some(("k".to_string(), "v=w".to_string())));
    assert_eq!(split_text_once("kv", '='), None);
}

#[test]
fn texts_are_searched() {
    assert!(contains_text("gateway", "tew"));
    assert!(contains_text("gateway", ""));
    assert!(!contains_text("gateway", "tww"));
    assert_eq!(strip_start("find me", "find "), Some("me".to_string()));
    assert_eq!(strip_start("fin", "find "), None);
    assert_eq!(
        split_text_at("a\r\n\r\nb\r\n\r\nc", "\r\n\r\n"),
        Some(("a".to_string(), "b\r\n\r\nc".to_string()))
    );
    assert_eq!(split_text_at("abc", "x"), None);
    assert!(same_text("ä", "ä"));
    assert!(!same_text("a", "ab"));
    assert_eq!(text_between(&vec!['a', 'b', 'c'], 1, 3), "bc");
}

#[test]
fn texts_are_ordered_as_std_orders_them() {
    let words = ["", "a", "ab", "b", "Z", "zz", "ä", "\u{10000}", "\u{e000}"];
    for a in words {
        for b in words {
            let expected = if a < b {
                Rank::Before
            } else if a == b {
                Rank::Same
            } else {
                Rank::After
            };
            assert_eq!(rank(a, b), expected, "{:?} {:?}", a, b);
        }
    }
}

#[test]
fn map_keeps_the_last_value_and_lists_keys_upwards() {
    let map = StringMap::new()
        .insert("b".to_string(), 1)
        .insert("a".to_string(), 2)
        .insert("b".to_string(), 3);
    assert_eq!(map.get("b"), Some(&3));
    assert_eq!(map.get("c"), None);
    assert!(map.contains_key("a"));
    assert!(!map.contains_key("c"));
    assert_eq!(map.keys(), strings(&["a", "b"]));
    let other = StringMap::new().insert("c".to_string(), 9).insert("a".to_string(), 8);
    assert_eq!(map.merge(other).into_columns(), (strings(&["a", "b", "c"]), vec![8, 3, 9]));
}
