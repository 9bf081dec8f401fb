//! Canonical register names and the decimal numerals inside them.

use qir_translator::arguments::QubitRef;
use qir_translator::decimal::{i32_to_decimal, u64_to_decimal};

#[test]
fn canonical_name_concatenates_namespace_and_index() {
    assert_eq!(QubitRef("q".to_string(), 2).as_qir_name(), "q2");
}

#[test]
fn canonical_name_is_deterministic() {
    let q = QubitRef("q".to_string(), 2);
    assert_eq!(q.as_qir_name(), q.as_qir_name());
}

#[test]
fn canonical_name_of_index_zero() {
    assert_eq!(QubitRef("q".to_string(), 0).as_qir_name(), "q0");
}

#[test]
fn canonical_name_with_longer_namespace() {
    assert_eq!(QubitRef("ancilla".to_string(), 10).as_qir_name(), "ancilla10");
}

#[test]
fn canonical_name_of_negative_index_carries_sign() {
    assert_eq!(QubitRef("q".to_string(), -3).as_qir_name(), "q-3");
}

#[test]
fn decimal_of_zero() {
    assert_eq!(u64_to_decimal(0), "0");
}

#[test]
fn decimal_of_single_digit() {
    assert_eq!(u64_to_decimal(7), "7");
}

#[test]
fn decimal_of_round_number() {
    assert_eq!(u64_to_decimal(10), "10");
}

#[test]
fn decimal_of_large_number() {
    assert_eq!(u64_to_decimal(90210), "90210");
}

#[test]
fn decimal_of_largest_u64() {
    assert_eq!(u64_to_decimal(u64::MAX), "18446744073709551615");
}

#[test]
fn signed_decimal_of_extremes() {
    assert_eq!(i32_to_decimal(i32::MAX), "2147483647");
    assert_eq!(i32_to_decimal(i32::MIN), "-2147483648");
    assert_eq!(i32_to_decimal(0), "0");
}
