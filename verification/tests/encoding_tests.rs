use signature_checker::encoding::{dec_digits_bytes, wrap_personal_message};

const PREFIX: &[u8] = b"\x19Ethereum Signed Message:\n";

#[test]
fn decimal_of_zero() {
    assert_eq!(dec_digits_bytes(0), b"0".to_vec());
}

#[test]
fn decimal_of_single_digit() {
    assert_eq!(dec_digits_bytes(7), b"7".to_vec());
}

#[test]
fn decimal_of_ten() {
    assert_eq!(dec_digits_bytes(10), b"10".to_vec());
}

#[test]
fn decimal_of_large_number() {
    assert_eq!(dec_digits_bytes(1234567890), b"1234567890".to_vec());
}

#[test]
fn wrap_short_message() {
    let msg = b"Hello".to_vec();
    let mut expected = PREFIX.to_vec();
    expected.extend_from_slice(b"5Hello");
    assert_eq!(wrap_personal_message(&msg), expected);
}

#[test]
fn wrap_empty_message() {
    let msg = Vec::new();
    let mut expected = PREFIX.to_vec();
    expected.extend_from_slice(b"0");
    assert_eq!(wrap_personal_message(&msg), expected);
}

#[test]
fn wrap_message_with_two_digit_length() {
    let msg = b"Hello world!".to_vec();
    let mut expected = PREFIX.to_vec();
    expected.extend_from_slice(b"12Hello world!");
    assert_eq!(wrap_personal_message(&msg), expected);
}

#[test]
fn wrap_keeps_raw_bytes() {
    let msg = vec![0u8, 255, 128, 1];
    let mut expected = PREFIX.to_vec();
    expected.extend_from_slice(b"4");
    expected.extend_from_slice(&[0, 255, 128, 1]);
    assert_eq!(wrap_personal_message(&msg), expected);
}
