use patch_tuesday::text::{
    chars_of, contains, contains_chars, piece_of, push_decimal, same_lowercase, same_text,
    to_decimal,
};

fn chars(s: &str) -> Vec<char> {
    s.chars().collect()
}

#[test]
fn chars_one_by_one() {
    assert_eq!(chars_of("a\u{e9}\u{1f600}z"), vec!['a', '\u{e9}', '\u{1f600}', 'z']);
    assert!(chars_of("").is_empty());
}

#[test]
fn substring_search() {
    assert!(contains("Exploited:Yes", "Yes"));
    assert!(contains("Yes", "Yes"));
    assert!(contains("xxYes", "Yes"));
    assert!(contains("YeYes", "Yes"));
    assert!(!contains("Ye", "Yes"));
    assert!(!contains("yes", "Yes"));
    assert!(!contains("Y-e-s", "Yes"));
    assert!(!contains("", "Yes"));
    assert!(contains("", ""));
    assert!(contains("abc", ""));
    assert!(contains("na\u{ef}ve caf\u{e9}", "caf\u{e9}"));
    assert!(!contains("cafe", "caf\u{e9}"));
}

#[test]
fn substring_search_agrees_with_std() {
    let texts = ["", "a", "ab", "aab", "aba", "abab", "baab", "Yes", "NoYes;", "aaa"];
    for hay in texts {
        for needle in texts {
            assert_eq!(contains(hay, needle), hay.contains(needle), "{hay:?} {needle:?}");
            assert_eq!(contains_chars(&chars(hay), &chars(needle)), hay.contains(needle));
        }
    }
}

#[test]
fn same_text_is_equality() {
    assert!(same_text("11569", "11569"));
    assert!(!same_text("11569", "11568"));
    assert!(!same_text("11569", "1156"));
    assert!(!same_text("", "1"));
    assert!(same_text("", ""));
}

#[test]
fn pieces_as_split_gives_them() {
    let texts = ["", ";", "a", "a;b", "a;", ";b", "a;;b", ";;", "Publicly Disclosed:No;Exploited:Yes;X"];
    for text in texts {
        let expected: Vec<&str> = text.split(';').collect();
        for k in 0..5 {
            let got = piece_of(&chars(text), ';', k).map(|p| p.into_iter().collect::<String>());
            assert_eq!(got.as_deref(), expected.get(k).copied(), "{text:?} {k}");
        }
    }
}

#[test]
fn decimal_numerals() {
    assert_eq!(to_decimal(0), "0");
    assert_eq!(to_decimal(7), "7");
    assert_eq!(to_decimal(10), "10");
    assert_eq!(to_decimal(2021), "2021");
    assert_eq!(to_decimal(1234567890), "1234567890");
    assert_eq!(to_decimal(u64::MAX), "18446744073709551615");
    let mut out = String::from("year ");
    push_decimal(&mut out, 1999);
    assert_eq!(out, "year 1999");
}

#[test]
fn same_lowercase_ignores_case() {
    assert!(same_lowercase("RCE", "rce"));
    assert!(same_lowercase("Rce", "rCE"));
    assert!(same_lowercase("\u{c4}rger", "\u{e4}RGER"));
    assert!(same_lowercase("", ""));
    assert!(!same_lowercase("RCE", "rec"));
    assert!(!same_lowercase("RCE", "rce "));
}
