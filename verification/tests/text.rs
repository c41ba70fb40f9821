use es_bulk::options::{Options, QueryOption};
use es_bulk::text::{
    borrowed, decimal_string, push_decimal, push_line, push_signed_decimal, same_text,
};
use es_bulk::units::{Duration, DurationUnit};

#[test]
fn decimal_numbers() {
    assert_eq!(decimal_string(0), "0");
    assert_eq!(decimal_string(7), "7");
    assert_eq!(decimal_string(10), "10");
    assert_eq!(decimal_string(503), "503");
    assert_eq!(decimal_string(1234567890), "1234567890");
    assert_eq!(decimal_string(u64::MAX), "18446744073709551615");
}

#[test]
fn decimal_is_appended() {
    let mut text = String::from("n=");
    push_decimal(&mut text, 42);
    push_decimal(&mut text, 0);
    assert_eq!(text, "n=420");
}

#[test]
fn lines_end_with_a_line_feed() {
    let mut text = String::new();
    push_line(&mut text, "{\"delete\":{}}");
    assert_eq!(text, "{\"delete\":{}}\n");
    push_line(&mut text, "");
    push_line(&mut text, "x");
    assert_eq!(text, "{\"delete\":{}}\n\nx\n");
}

#[test]
fn signed_decimal_numbers() {
    let cases: [(i64, &str); 6] = [
        (0, "0"),
        (5, "5"),
        (-1, "-1"),
        (-120, "-120"),
        (i64::MAX, "9223372036854775807"),
        (i64::MIN, "-9223372036854775808"),
    ];
    for (number, expected) in cases {
        let mut text = String::new();
        push_signed_decimal(&mut text, number);
        assert_eq!(text, expected);
    }
}

#[test]
fn texts_are_told_apart() {
    assert!(same_text("index", "index"));
    assert!(same_text("", ""));
    assert!(!same_text("index", "Index"));
    assert!(!same_text("index", "indexes"));
    assert_eq!(borrowed(&Some("a".to_string())), Some("a"));
    assert_eq!(borrowed(&None), None);
}

#[test]
fn durations_as_text() {
    assert_eq!(Duration::new(5, DurationUnit::Minute).to_string(), "5m");
    assert_eq!(Duration::new(1, DurationUnit::Month).to_string(), "1M");
    assert_eq!(Duration::new(2, DurationUnit::Week).to_string(), "2w");
    assert_eq!(Duration::new(3, DurationUnit::Day).to_string(), "3d");
    assert_eq!(Duration::new(4, DurationUnit::Hour).to_string(), "4h");
    assert_eq!(Duration::new(60, DurationUnit::Second).to_string(), "60s");
    assert_eq!(Duration::new(1500, DurationUnit::Millisecond).to_string(), "1500ms");
    assert_eq!(Duration::new(-1, DurationUnit::Second).to_string(), "-1s");
    assert_eq!(Duration::new(0, DurationUnit::Day).to_string(), "0d");
    assert_eq!(DurationUnit::Millisecond.to_string(), "ms");
    assert_eq!(Duration::new(5, DurationUnit::Minute), Duration { amt: 5, unit: DurationUnit::Minute });
}

#[test]
fn no_options_no_query_string() {
    let options = Options::new();
    assert!(options.is_empty());
    assert_eq!(options.to_string(), "");
}

#[test]
fn options_in_the_order_given() {
    let mut options = Options::new();
    options.push("refresh", Some("true"));
    assert_eq!(options.to_string(), "?refresh=true");
    options.push("consistency", Some("one"));
    options.push("timeout", Some("1m"));
    assert!(!options.is_empty());
    assert_eq!(options.to_string(), "?refresh=true&consistency=one&timeout=1m");
    assert_eq!(options.to_string(), options.to_string());
}

#[test]
fn options_without_a_value_contribute_nothing() {
    let mut options = Options::new();
    options.push("refresh", None);
    assert_eq!(options.to_string(), "");
    options.push("consistency", Some("all"));
    options.push("timeout", None);
    assert_eq!(options.to_string(), "?consistency=all");
    options.push("routing", Some(""));
    assert_eq!(options.to_string(), "?consistency=all&routing=");
    assert_eq!(
        options.entries[0],
        QueryOption { name: "refresh".to_string(), value: None }
    );
    assert_eq!(options.entries.len(), 4);
}
