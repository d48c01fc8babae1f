use fezer::decimal::decimal_string;

#[test]
fn renders_single_digits() {
    assert_eq!(decimal_string(0), "0".to_string());
    assert_eq!(decimal_string(7), "7".to_string());
    assert_eq!(decimal_string(9), "9".to_string());
}

#[test]
fn renders_multi_digit_numbers() {
    assert_eq!(decimal_string(10), "10".to_string());
    assert_eq!(decimal_string(200), "200".to_string());
    assert_eq!(decimal_string(12345), "12345".to_string());
    assert_eq!(decimal_string(1000001), "1000001".to_string());
}
