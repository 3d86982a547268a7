use esp32s3_cam_qr::code::{all_ascii_digits, is_valid_code, KEYPAD_CODE_LEN};

#[test]
fn seven_ascii_digits_are_a_code() {
    assert_eq!(KEYPAD_CODE_LEN, 7);
    assert!(is_valid_code("1234567"));
    assert!(is_valid_code("0000000"));
}

#[test]
fn wrong_length_is_not_a_code() {
    assert!(!is_valid_code(""));
    assert!(!is_valid_code("123456"));
    assert!(!is_valid_code("12345678"));
    assert!(!is_valid_code("It works!"));
}

#[test]
fn non_digits_are_not_a_code() {
    assert!(!is_valid_code("12a4567"));
    assert!(!is_valid_code("123456 "));
    assert!(!is_valid_code("\u{661}\u{662}\u{663}\u{664}\u{665}\u{666}\u{667}"));
}

#[test]
fn digit_check() {
    assert!(all_ascii_digits(""));
    assert!(all_ascii_digits("0123456789"));
    assert!(!all_ascii_digits("12?"));
    assert!(!all_ascii_digits("/"));
    assert!(!all_ascii_digits(":"));
}
