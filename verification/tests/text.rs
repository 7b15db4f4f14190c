use command_center::text::{
    chars_of, decimal_text, escape_single_quotes, parse_decimal, same_text, signed_decimal_text,
    split,
};

fn pieces(s: &str, sep: char) -> Vec<String> {
    split(s, sep).iter().map(|p| p.iter().collect::<String>()).collect()
}

#[test]
fn same_text_compares_characters() {
    assert!(same_text("RUNNING", "RUNNING"));
    assert!(!same_text("RUNNING", "running"));
    assert!(!same_text("", "x"));
    assert!(same_text("", ""));
}

#[test]
fn chars_of_keeps_order_and_unicode() {
    assert_eq!(chars_of("aé/"), vec!['a', 'é', '/']);
    assert!(chars_of("").is_empty());
}

#[test]
fn split_cuts_at_every_separator() {
    assert_eq!(pieces("acct/demo", '/'), vec!["acct", "demo"]);
    assert_eq!(pieces("a//b/", '/'), vec!["a", "", "b", ""]);
    assert_eq!(pieces("plain", '/'), vec!["plain"]);
    assert_eq!(pieces("", '/'), vec![""]);
    assert_eq!(pieces("/", '/'), vec!["", ""]);
}

#[test]
fn split_agrees_with_std_split() {
    for s in ["https://host/a/b", "x", "///", "a/b/c/d/", "é/ü"] {
        let expected: Vec<String> = s.split('/').map(|p| p.to_string()).collect();
        assert_eq!(pieces(s, '/'), expected);
    }
}

#[test]
fn single_quotes_are_escaped_for_the_shell() {
    assert_eq!(escape_single_quotes("it's"), "it'\\''s");
    assert_eq!(escape_single_quotes("plain"), "plain");
    assert_eq!(escape_single_quotes(""), "");
    assert_eq!(escape_single_quotes("''"), "'\\'''\\''");
    assert_eq!(escape_single_quotes("a'b"), "a'b".replace('\'', "'\\''"));
}

#[test]
fn decimal_text_writes_numbers() {
    assert_eq!(decimal_text(0), "0");
    assert_eq!(decimal_text(7), "7");
    assert_eq!(decimal_text(22), "22");
    assert_eq!(decimal_text(999), "999");
    assert_eq!(decimal_text(1000), "1000");
    assert_eq!(decimal_text(u64::MAX), "18446744073709551615");
}

#[test]
fn parse_decimal_reads_numbers() {
    assert_eq!(parse_decimal(&chars_of("7")), Some(7));
    assert_eq!(parse_decimal(&chars_of("007")), Some(7));
    assert_eq!(parse_decimal(&chars_of("123")), Some(123));
    assert_eq!(parse_decimal(&chars_of("18446744073709551615")), Some(u64::MAX));
}

#[test]
fn parse_decimal_refuses_what_is_no_number() {
    assert_eq!(parse_decimal(&chars_of("")), None);
    assert_eq!(parse_decimal(&chars_of("12a")), None);
    assert_eq!(parse_decimal(&chars_of("-1")), None);
    assert_eq!(parse_decimal(&chars_of("18446744073709551616")), None);
    assert_eq!(parse_decimal(&chars_of("99999999999999999999999")), None);
}

#[test]
fn parse_decimal_inverts_decimal_text() {
    for n in [0u64, 1, 9, 10, 59, 60, 404, 65535, u64::MAX - 1] {
        assert_eq!(parse_decimal(&chars_of(&decimal_text(n))), Some(n));
    }
}

#[test]
fn signed_decimal_text_writes_integers() {
    assert_eq!(signed_decimal_text(0), "0");
    assert_eq!(signed_decimal_text(17), "17");
    assert_eq!(signed_decimal_text(-17), "-17");
    assert_eq!(signed_decimal_text(i32::MIN), i32::MIN.to_string());
    assert_eq!(signed_decimal_text(i32::MAX), i32::MAX.to_string());
}
