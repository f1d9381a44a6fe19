use apex::text::{
    joined, labelled_number, numbered, push_decimal, push_signed_decimal, replace_char,
    truth_text,
};
use apex::utils::registry::trim_end;

fn decimal_text(n: u64) -> String {
    let mut text = String::new();
    push_decimal(&mut text, n);
    text
}

#[test]
fn decimal_writes_every_digit() {
    assert_eq!(decimal_text(0), "0");
    assert_eq!(decimal_text(7), "7");
    assert_eq!(decimal_text(10), "10");
    assert_eq!(decimal_text(1234567890), "1234567890");
    assert_eq!(decimal_text(u64::MAX), "18446744073709551615");
    for n in [9u64, 99, 100, 101, 4294967295, 1000000007] {
        assert_eq!(decimal_text(n), n.to_string());
    }
}

#[test]
fn push_decimal_appends() {
    let mut s = "n=".to_string();
    push_decimal(&mut s, 305);
    assert_eq!(s, "n=305");
    push_signed_decimal(&mut s, -42);
    assert_eq!(s, "n=305-42");
    push_signed_decimal(&mut s, 0);
    assert_eq!(s, "n=305-420");
    let mut m = String::new();
    push_signed_decimal(&mut m, i64::MIN);
    assert_eq!(m, "-9223372036854775808");
    let mut p = String::new();
    push_signed_decimal(&mut p, i64::MAX);
    assert_eq!(p, "9223372036854775807");
}

#[test]
fn replace_char_replaces_every_occurrence() {
    assert_eq!(replace_char("a\\b\\c", '\\', "_"), "a_b_c");
    assert_eq!(replace_char("say \"hi\"", '"', "\"\""), "say \"\"hi\"\"");
    assert_eq!(replace_char("", 'x', "y"), "");
    assert_eq!(replace_char("xxx", 'x', ""), "");
    assert_eq!(replace_char("héllo wörld", 'ö', "oe"), "héllo woerld");
    assert_eq!(replace_char("plain", 'x', "y"), "plain");
}

#[test]
fn joining_and_labelling() {
    assert_eq!(joined("ab", "cd"), "abcd");
    assert_eq!(joined("", ""), "");
    assert_eq!(numbered("Check ", 12), "Check 12");
    assert_eq!(labelled_number("TDR delay: ", 2, " seconds"), "TDR delay: 2 seconds");
    assert_eq!(truth_text(true), "true");
    assert_eq!(truth_text(false), "false");
}

#[test]
fn trim_end_takes_off_only_the_trailing_run() {
    assert_eq!(trim_end("abc\0\0", '\0'), "abc");
    assert_eq!(trim_end("a\0b\0", '\0'), "a\0b");
    assert_eq!(trim_end("\0\0", '\0'), "");
    assert_eq!(trim_end("", '\0'), "");
    assert_eq!(trim_end("abc", '\0'), "abc");
    assert_eq!(trim_end("\0abc", '\0'), "\0abc");
    assert_eq!(trim_end("xxaxx", 'x'), "xxa");
}
