use f_chat_rs::data::{Channel, Character};
use f_chat_rs::order::compare_ignore_case;
use f_chat_rs::text::{decimal_string, eq_ignore_case, lowercase, parse_decimal, to_lower};
use std::cmp::Ordering;
use f_chat_rs::util::StackString;

#[test]
fn decimal_numerals() {
    assert_eq!(decimal_string(0), "0");
    assert_eq!(decimal_string(9), "9");
    assert_eq!(decimal_string(10), "10");
    assert_eq!(decimal_string(621), "621");
    assert_eq!(decimal_string(u64::MAX), "18446744073709551615");
    for n in [0u64, 1, 9, 10, 99, 100, 101, 12345, 4294967295, 4294967296, u64::MAX - 1, u64::MAX] {
        assert_eq!(decimal_string(n), n.to_string());
        assert_eq!(parse_decimal(&decimal_string(n)), Some(n));
    }
}

#[test]
fn decimal_parsing() {
    assert_eq!(parse_decimal("0"), Some(0));
    assert_eq!(parse_decimal("000"), Some(0));
    assert_eq!(parse_decimal("+12"), Some(12));
    assert_eq!(parse_decimal("18446744073709551615"), Some(u64::MAX));
    assert_eq!(parse_decimal("18446744073709551616"), None);
    assert_eq!(parse_decimal("99999999999999999999999"), None);
    assert_eq!(parse_decimal("9999999999999999999x"), None);
    assert_eq!(parse_decimal(""), None);
    assert_eq!(parse_decimal("+"), None);
    assert_eq!(parse_decimal("++1"), None);
    assert_eq!(parse_decimal("-1"), None);
    assert_eq!(parse_decimal("1 "), None);
    assert_eq!(parse_decimal("1e3"), None);
    assert_eq!(parse_decimal("\u{663}"), None);
    for text in ["0", "7", "+7", "0012", "18446744073709551615", "18446744073709551616", "", "+", "x1", "1x"] {
        assert_eq!(parse_decimal(text), text.parse::<u64>().ok(), "{:?}", text);
    }
}

#[test]
fn case_folding() {
    assert_eq!(to_lower('A'), 'a');
    assert_eq!(to_lower('Z'), 'z');
    assert_eq!(to_lower('a'), 'a');
    assert_eq!(to_lower('@'), '@');
    assert_eq!(to_lower('['), '[');
    assert_eq!(to_lower('\u{c9}'), '\u{c9}');
    assert_eq!(lowercase("Hello, World! \u{c9}"), "hello, world! \u{c9}");
    assert_eq!(lowercase(""), "");
    assert!(eq_ignore_case("ADH-abc", "adh-ABC"));
    assert!(eq_ignore_case("", ""));
    assert!(!eq_ignore_case("a", "ab"));
    assert!(!eq_ignore_case("ab", "ac"));
    assert!(!eq_ignore_case("\u{c9}", "\u{e9}"));
    for (a, b) in [("Foo", "fOO"), ("x", "y"), ("", "a"), ("\u{e9}t\u{e9}", "\u{e9}T\u{e9}")] {
        assert_eq!(eq_ignore_case(a, b), a.eq_ignore_ascii_case(b));
        assert_eq!(lowercase(a), a.to_ascii_lowercase());
    }
}

#[test]
fn stack_strings() {
    let s: StackString<5> = StackString::new("h\u{e9}llo".get(..5).unwrap());
    assert_eq!(s.as_str(), "h\u{e9}ll");
    assert_eq!(s.len(), 5);
    let e: StackString<5> = StackString::default();
    assert_eq!(e.as_str(), "");
    assert_eq!(e.len(), 0);
    assert!(StackString::<5>::try_new("12345").is_ok());
    assert!(StackString::<5>::try_new("123456").is_err());
    assert!(StackString::<0>::try_new("").is_ok());
    assert!(StackString::<0>::try_new("a").is_err());
    let a: StackString<8> = StackString::new("abc");
    let b: StackString<8> = StackString::try_new("abc").unwrap();
    let c: StackString<8> = StackString::new("ABC");
    assert_eq!(a, b);
    assert_ne!(a, c);
    let copy = a;
    assert_eq!(copy.as_str(), a.as_str());
}

#[test]
fn names_are_ordered_without_case() {
    let cases = [
        ("", "", Ordering::Equal),
        ("", "a", Ordering::Less),
        ("a", "", Ordering::Greater),
        ("abc", "ABC", Ordering::Equal),
        ("abc", "ABD", Ordering::Less),
        ("ABD", "abc", Ordering::Greater),
        ("ab", "ABC", Ordering::Less),
        ("Zed", "alpha", Ordering::Greater),
        ("alpha", "Zed", Ordering::Less),
        ("a\u{e9}", "a\u{c9}", Ordering::Greater),
    ];
    for (a, b, expected) in cases {
        assert_eq!(compare_ignore_case(a, b), expected, "{:?} {:?}", a, b);
        assert_eq!(compare_ignore_case(a, b), a.to_ascii_lowercase().cmp(&b.to_ascii_lowercase()));
        assert_eq!(Character::new(a).partial_cmp(&Character::new(b)), Some(expected));
        assert_eq!(Channel::new(a).partial_cmp(&Channel::new(b)), Some(expected));
        assert_eq!(Character::new(a) < Character::new(b), expected == Ordering::Less);
        assert_eq!(Character::new(a) == Character::new(b), expected == Ordering::Equal);
    }
    let mut names = vec![Character::new("bob"), Character::new("Alice"), Character::new("carol"), Character::new("Bert")];
    names.sort_by(|a, b| a.partial_cmp(b).unwrap());
    let sorted: Vec<&str> = names.iter().map(|c| c.as_str()).collect();
    assert_eq!(sorted, vec!["Alice", "Bert", "bob", "carol"]);
}
