use todo::{decimal_of, join_from, pad_left, pad_right, parse_i32, truncate};

#[test]
fn truncate_keeps_name_at_limit() {
    let name = "a".repeat(44);
    assert_eq!(truncate(&name, 44), name);
}

#[test]
fn truncate_cuts_name_one_over_limit() {
    let name = "b".repeat(45);
    let r = truncate(&name, 44);
    assert_eq!(r.chars().count(), 44);
    assert_eq!(r, format!("{}...", "b".repeat(41)));
}

#[test]
fn truncate_short_and_unlimited() {
    assert_eq!(truncate("Buy milk", 44), "Buy milk");
    assert_eq!(truncate("", 3), "");
    assert_eq!(truncate("abcdef", -1), "abcdef");
    assert_eq!(truncate("abcdef", 5), "ab...");
    assert_eq!(truncate("abcd", 3), "...");
}

#[test]
fn truncate_counts_characters() {
    assert_eq!(truncate("ééééé", 4), "é...");
}

#[test]
fn parse_i32_accepts_signed_decimals() {
    assert_eq!(parse_i32("1"), Some(1));
    assert_eq!(parse_i32("+5"), Some(5));
    assert_eq!(parse_i32("-12"), Some(-12));
    assert_eq!(parse_i32("007"), Some(7));
    assert_eq!(parse_i32("2147483647"), Some(i32::MAX));
    assert_eq!(parse_i32("-2147483648"), Some(i32::MIN));
}

#[test]
fn parse_i32_rejects_malformed() {
    assert_eq!(parse_i32(""), None);
    assert_eq!(parse_i32("-"), None);
    assert_eq!(parse_i32("+"), None);
    assert_eq!(parse_i32("abc"), None);
    assert_eq!(parse_i32("1a"), None);
    assert_eq!(parse_i32(" 1"), None);
    assert_eq!(parse_i32("2147483648"), None);
    assert_eq!(parse_i32("-2147483649"), None);
    assert_eq!(parse_i32("99999999999999999999"), None);
}

#[test]
fn parse_i32_agrees_with_std() {
    for s in ["0", "-0", "+0", "12x", "--1", "+-1", "4294967296", "-7", "65535"] {
        assert_eq!(parse_i32(s), s.parse::<i32>().ok(), "{}", s);
    }
}

#[test]
fn decimal_of_renders_sign_and_digits() {
    assert_eq!(decimal_of(0), "0");
    assert_eq!(decimal_of(42), "42");
    assert_eq!(decimal_of(-305), "-305");
    assert_eq!(decimal_of(i32::MIN), "-2147483648");
    assert_eq!(decimal_of(i32::MAX), "2147483647");
}

#[test]
fn padding_aligns_within_width() {
    assert_eq!(pad_left("7", 4), "   7");
    assert_eq!(pad_left("12345", 4), "12345");
    assert_eq!(pad_right("DONE", 8), "DONE    ");
    assert_eq!(pad_right("PENDING!!", 8), "PENDING!!");
}

#[test]
fn join_from_uses_single_spaces() {
    let args: Vec<String> = ["todo", "add", "Buy", "milk"].iter().map(|s| s.to_string()).collect();
    assert_eq!(join_from(&args, 2), "Buy milk");
    assert_eq!(join_from(&args, 4), "");
    assert_eq!(join_from(&args, 3), "milk");
}
