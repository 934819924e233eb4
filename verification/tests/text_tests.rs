use aptos_toolkit::text::{debug_optional_string, decimal_string};

#[test]
fn numbers_in_decimal() {
    for n in [0, 9, 10, 19, 100, 1234567890, u64::MAX] {
        assert_eq!(decimal_string(n), n.to_string());
    }
}

#[test]
fn optional_numbers() {
    assert_eq!(debug_optional_string(None), "None");
    assert_eq!(debug_optional_string(Some(120)), "Some(120)");
}
