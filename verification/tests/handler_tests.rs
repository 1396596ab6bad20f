//! The built-in handlers and the decimal integer parsing and rendering
//! they rest on.

use erpc::handler::{parse_i64, i64_to_string, AddHandler, ConstHandler, EchoHandler, Handler};
use erpc::text::{str_eq, u64_to_string};

fn params(values: Vec<&str>) -> Option<Vec<String>> {
    Some(values.into_iter().map(|v| v.to_owned()).collect())
}

#[test]
fn parse_reads_decimal_integers() {
    assert_eq!(parse_i64("0"), Some(0));
    assert_eq!(parse_i64("42"), Some(42));
    assert_eq!(parse_i64("-7"), Some(-7));
    assert_eq!(parse_i64("9223372036854775807"), Some(i64::MAX));
    assert_eq!(parse_i64("-9223372036854775808"), Some(i64::MIN));
    assert_eq!(parse_i64("007"), Some(7));
}

#[test]
fn parse_rejects_what_is_not_an_integer() {
    assert_eq!(parse_i64(""), None);
    assert_eq!(parse_i64("-"), None);
    assert_eq!(parse_i64("12a"), None);
    assert_eq!(parse_i64("+5"), None);
    assert_eq!(parse_i64("--3"), None);
    assert_eq!(parse_i64("1.5"), None);
    assert_eq!(parse_i64(" 1"), None);
}

#[test]
fn parse_rejects_out_of_range_values() {
    assert_eq!(parse_i64("9223372036854775808"), None);
    assert_eq!(parse_i64("-9223372036854775809"), None);
    assert_eq!(parse_i64("99999999999999999999999999"), None);
}

#[test]
fn rendering_is_plain_decimal() {
    assert_eq!(u64_to_string(0), "0");
    assert_eq!(u64_to_string(10), "10");
    assert_eq!(u64_to_string(18446744073709551615), "18446744073709551615");
    assert_eq!(i64_to_string(0), "0");
    assert_eq!(i64_to_string(-1), "-1");
    assert_eq!(i64_to_string(i64::MIN), "-9223372036854775808");
    assert_eq!(i64_to_string(i64::MAX), "9223372036854775807");
}

#[test]
fn echo_returns_its_first_parameter() {
    assert_eq!(
        EchoHandler.invoke(&params(vec!["\"hello\"", "2"])),
        Ok("\"hello\"".to_owned())
    );
    assert_eq!(
        EchoHandler.invoke(&None),
        Err("expected at least one parameter".to_owned())
    );
    assert_eq!(
        EchoHandler.invoke(&Some(Vec::new())),
        Err("expected at least one parameter".to_owned())
    );
}

#[test]
fn add_sums_two_integers() {
    assert_eq!(AddHandler.invoke(&params(vec!["2", "3"])), Ok("5".to_owned()));
    assert_eq!(AddHandler.invoke(&params(vec!["-2", "3"])), Ok("1".to_owned()));
    assert_eq!(AddHandler.invoke(&params(vec!["-2", "-3"])), Ok("-5".to_owned()));
}

#[test]
fn add_reports_arity_mistakes() {
    assert_eq!(
        AddHandler.invoke(&params(vec!["2"])),
        Err("expected exactly two parameters".to_owned())
    );
    assert_eq!(
        AddHandler.invoke(&params(vec!["1", "2", "3"])),
        Err("expected exactly two parameters".to_owned())
    );
    assert_eq!(
        AddHandler.invoke(&None),
        Err("expected exactly two parameters".to_owned())
    );
}

#[test]
fn add_tells_malformed_from_oversized_parameters() {
    assert_eq!(
        AddHandler.invoke(&params(vec!["x", "3"])),
        Err("parameters must be integers".to_owned())
    );
    assert_eq!(
        AddHandler.invoke(&params(vec!["9223372036854775808", "0"])),
        Err("parameters out of range".to_owned())
    );
    assert_eq!(
        AddHandler.invoke(&params(vec!["9223372036854775807", "1"])),
        Err("parameters out of range".to_owned())
    );
    assert_eq!(
        AddHandler.invoke(&params(vec!["x", "9223372036854775808"])),
        Err("parameters must be integers".to_owned())
    );
}

#[test]
fn const_handler_ignores_parameters() {
    let h = ConstHandler { value: "37".to_owned() };
    assert_eq!(h.invoke(&None), Ok("37".to_owned()));
    assert_eq!(h.invoke(&params(vec!["1", "2"])), Ok("37".to_owned()));
}

#[test]
fn character_wise_equality_agrees_with_std() {
    assert!(str_eq("", ""));
    assert!(str_eq("abc", "abc"));
    assert!(!str_eq("abc", "abd"));
    assert!(!str_eq("abc", "ab"));
    assert!(str_eq("héllo", "héllo"));
    assert!(!str_eq("héllo", "hello"));
}
