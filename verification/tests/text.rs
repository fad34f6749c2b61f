use vegar::text::{concat_str, decimal_string};

#[test]
fn decimal_strings() {
    assert_eq!(decimal_string(0), "0");
    assert_eq!(decimal_string(7), "7");
    assert_eq!(decimal_string(10), "10");
    assert_eq!(decimal_string(1234567890), "1234567890");
    assert_eq!(decimal_string(u64::MAX), u64::MAX.to_string());
}

#[test]
fn concatenation() {
    assert_eq!(concat_str("证件", "照"), "证件照");
    assert_eq!(concat_str("", ""), "");
}
