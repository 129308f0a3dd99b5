use payload_shell::hex::{from_hex, to_hex, TransportError};

#[test]
fn to_hex_writes_two_upper_case_digits_per_byte() {
    assert_eq!(to_hex(&vec![0x00, 0x0f, 0xa5, 0xff]), "000FA5FF");
    assert_eq!(to_hex(&Vec::new()), "");
}

#[test]
fn from_hex_reads_both_cases() {
    assert_eq!(from_hex("000fA5Ff"), Ok(vec![0x00, 0x0f, 0xa5, 0xff]));
    assert_eq!(from_hex(""), Ok(Vec::new()));
}

#[test]
fn from_hex_rejects_odd_length() {
    assert_eq!(from_hex("ABC"), Err(TransportError::MalformedHex));
}

#[test]
fn from_hex_rejects_other_characters() {
    assert_eq!(from_hex("0G"), Err(TransportError::MalformedHex));
    assert_eq!(from_hex("+F"), Err(TransportError::MalformedHex));
    assert_eq!(from_hex("\u{e9}\u{e9}"), Err(TransportError::MalformedHex));
}

#[test]
fn hex_round_trip_is_lossless_for_all_byte_values() {
    let mut bytes: Vec<u8> = Vec::new();
    for b in 0..=255u8 {
        bytes.push(b);
    }
    let text = to_hex(&bytes);
    assert_eq!(text.len(), 512);
    assert_eq!(from_hex(&text), Ok(bytes));
}
