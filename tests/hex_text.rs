use evm_hound::{bytes_to_hex, hex_to_bytes, HexError};

#[test]
fn bytes_to_lowercase_hex() {
    assert_eq!(bytes_to_hex(&[0x00, 0xff, 0x1a, 0xb0]), "00ff1ab0");
    assert_eq!(bytes_to_hex(&[]), "");
}

#[test]
fn hex_with_and_without_prefix() {
    assert_eq!(hex_to_bytes("0x0a1B"), Ok(vec![0x0a, 0x1b]));
    assert_eq!(hex_to_bytes("a9059cbb"), Ok(vec![0xa9, 0x05, 0x9c, 0xbb]));
    assert_eq!(hex_to_bytes(""), Ok(vec![]));
    assert_eq!(hex_to_bytes("0x"), Ok(vec![]));
}

#[test]
fn odd_length_hex_is_rejected() {
    assert_eq!(hex_to_bytes("abc"), Err(HexError::OddLength));
    assert_eq!(hex_to_bytes("0x1"), Err(HexError::OddLength));
}

#[test]
fn non_hex_digit_is_rejected() {
    assert_eq!(hex_to_bytes("0xzz"), Err(HexError::InvalidDigit));
    assert_eq!(hex_to_bytes("0X12"), Err(HexError::InvalidDigit));
    assert_eq!(hex_to_bytes("+f"), Err(HexError::InvalidDigit));
    assert_eq!(hex_to_bytes("0xé"), Err(HexError::InvalidDigit));
}

#[test]
fn hex_round_trip() {
    let bytes = vec![0x60, 0x80, 0x60, 0x40, 0x52, 0x00, 0xfe];
    assert_eq!(hex_to_bytes(&bytes_to_hex(&bytes)), Ok(bytes.clone()));
    assert_eq!(hex_to_bytes(&format!("0x{}", bytes_to_hex(&bytes))), Ok(bytes));
}
