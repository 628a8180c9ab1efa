use pizza_lookup::json::{error_body, success_body};
use pizza_lookup::numfmt::{i32_dec, u32_dec};
use pizza_lookup::params::PathParams;

#[test]
fn decimal_of_small_numbers() {
    assert_eq!(u32_dec(0), "0");
    assert_eq!(u32_dec(7), "7");
    assert_eq!(u32_dec(10), "10");
    assert_eq!(u32_dec(305), "305");
}

#[test]
fn decimal_of_extreme_values() {
    assert_eq!(u32_dec(4294967295), "4294967295");
    assert_eq!(i32_dec(2147483647), "2147483647");
    assert_eq!(i32_dec(-2147483648), "-2147483648");
}

#[test]
fn decimal_of_negative_numbers() {
    assert_eq!(i32_dec(-1), "-1");
    assert_eq!(i32_dec(-123), "-123");
    assert_eq!(i32_dec(0), "0");
    assert_eq!(i32_dec(12), "12");
}

#[test]
fn success_body_exact() {
    assert_eq!(success_body("regina", 12), "{\"name\":\"regina\",\"price\":12}");
    assert_eq!(success_body("deluxe", 14), "{\"name\":\"deluxe\",\"price\":14}");
}

#[test]
fn error_body_exact() {
    assert_eq!(error_body("boom"), "{\"error\":\"boom\"}");
    assert_eq!(error_body(""), "{\"error\":\"\"}");
}

#[test]
fn first_finds_first_matching_pair() {
    let mut params = PathParams::new();
    params.push("a".to_string(), "1".to_string());
    params.push("b".to_string(), "2".to_string());
    params.push("a".to_string(), "3".to_string());
    assert_eq!(params.first("a"), Some("1".to_string()));
    assert_eq!(params.first("b"), Some("2".to_string()));
    assert_eq!(params.first("c"), None);
}
