use payload_shell::hex::{hexlify_args, transport_bytes};
use payload_shell::models::config_file::{ArgKind, ConfigArguments};
use payload_shell::models::payload::Payload;
use payload_shell::packer::{pack, pack_value, utf16_units, PackError};

fn slot(kind: &str, value: &str) -> Payload {
    Payload {
        value: value.to_string(),
        arg: ConfigArguments {
            name: "field".to_string(),
            kind: kind.to_string(),
            desc: String::new(),
            optional: false,
        },
    }
}

#[test]
fn the_packing_example_packs() {
    let slots = vec![slot("wstr", "C:\\"), slot("int", "5005")];
    assert_eq!(
        pack(&slots),
        Ok(vec![
            0x04, 0x00, 0x00, 0x00, 0x43, 0x00, 0x3a, 0x00, 0x5c, 0x00, 0x00, 0x00, 0x8d, 0x13,
            0x00, 0x00
        ])
    );
    assert_eq!(hexlify_args(&slots), Ok("0400000043003A005C0000008D130000".to_string()));
}

#[test]
fn a_narrow_string_is_length_bytes_and_terminator() {
    assert_eq!(
        pack(&vec![slot("str", "hi")]),
        Ok(vec![0x03, 0x00, 0x00, 0x00, 0x68, 0x69, 0x00])
    );
    assert_eq!(pack(&vec![slot("str", "")]), Ok(vec![0x01, 0x00, 0x00, 0x00, 0x00]));
    assert_eq!(
        pack(&vec![slot("str", "\u{e9}")]),
        Ok(vec![0x03, 0x00, 0x00, 0x00, 0xc3, 0xa9, 0x00])
    );
}

#[test]
fn a_narrow_string_longer_than_a_byte_counts_in_the_second_byte() {
    let text = "a".repeat(299);
    let packed = pack(&vec![slot("str", &text)]).unwrap();
    assert_eq!(packed.len(), 4 + 299 + 1);
    assert_eq!(&packed[0..4], &[0x2c, 0x01, 0x00, 0x00]);
    assert_eq!(packed[4], 0x61);
    assert_eq!(packed[303], 0x00);
}

#[test]
fn a_wide_string_counts_units_and_writes_them_low_byte_first() {
    assert_eq!(
        pack(&vec![slot("wstr", "\u{20ac}")]),
        Ok(vec![0x02, 0x00, 0x00, 0x00, 0xac, 0x20, 0x00, 0x00])
    );
    assert_eq!(pack(&vec![slot("wstr", "")]), Ok(vec![0x01, 0x00, 0x00, 0x00, 0x00, 0x00]));
    assert_eq!(
        pack(&vec![slot("wstr", "\u{1f600}")]),
        Ok(vec![0x03, 0x00, 0x00, 0x00, 0x3d, 0xd8, 0x00, 0xde, 0x00, 0x00])
    );
}

#[test]
fn utf16_units_agree_with_the_standard_library() {
    for text in ["", "abc", "C:\\", "\u{e9}\u{20ac}", "\u{1f600}x\u{10ffff}\u{10000}\u{ffff}\u{d7ff}\u{e000}"] {
        let expected: Vec<u16> = text.encode_utf16().collect();
        assert_eq!(utf16_units(text), expected);
    }
}

#[test]
fn integers_are_two_complement_low_byte_first() {
    assert_eq!(pack(&vec![slot("int", "1")]), Ok(vec![0x01, 0x00, 0x00, 0x00]));
    assert_eq!(pack(&vec![slot("int", "-1")]), Ok(vec![0xff, 0xff, 0xff, 0xff]));
    assert_eq!(pack(&vec![slot("int", "-2")]), Ok(vec![0xfe, 0xff, 0xff, 0xff]));
    assert_eq!(pack(&vec![slot("int", "305419896")]), Ok(vec![0x78, 0x56, 0x34, 0x12]));
    assert_eq!(pack(&vec![slot("int", "2147483647")]), Ok(vec![0xff, 0xff, 0xff, 0x7f]));
    assert_eq!(pack(&vec![slot("int", "-2147483648")]), Ok(vec![0x00, 0x00, 0x00, 0x80]));
    assert_eq!(pack(&vec![slot("short", "258")]), Ok(vec![0x02, 0x01]));
    assert_eq!(pack(&vec![slot("short", "-1")]), Ok(vec![0xff, 0xff]));
    assert_eq!(pack(&vec![slot("short", "-32768")]), Ok(vec![0x00, 0x80]));
    assert_eq!(pack(&vec![slot("short", "32767")]), Ok(vec![0xff, 0x7f]));
}

#[test]
fn integers_agree_with_the_standard_library() {
    for v in [0i32, 1, -1, 255, 256, -256, 65535, 65536, -65537, i32::MAX, i32::MIN, 5005] {
        assert_eq!(pack(&vec![slot("int", &v.to_string())]), Ok(v.to_le_bytes().to_vec()));
    }
    for v in [0i16, 1, -1, 255, 256, -256, i16::MAX, i16::MIN] {
        assert_eq!(pack(&vec![slot("short", &v.to_string())]), Ok(v.to_le_bytes().to_vec()));
    }
}

#[test]
fn values_are_packed_in_order_with_nothing_between() {
    let slots = vec![slot("short", "1"), slot("str", "a"), slot("int", "2")];
    assert_eq!(
        pack(&slots),
        Ok(vec![0x01, 0x00, 0x02, 0x00, 0x00, 0x00, 0x61, 0x00, 0x02, 0x00, 0x00, 0x00])
    );
    assert_eq!(pack(&Vec::new()), Ok(Vec::new()));
    assert_eq!(hexlify_args(&Vec::new()), Ok(String::new()));
}

#[test]
fn a_value_that_is_no_integer_is_not_packed() {
    assert_eq!(pack(&vec![slot("int", "")]), Err(PackError::InvalidInteger));
    assert_eq!(pack(&vec![slot("int", "2147483648")]), Err(PackError::InvalidInteger));
    assert_eq!(pack(&vec![slot("int", "five")]), Err(PackError::InvalidInteger));
    assert_eq!(pack(&vec![slot("short", "32768")]), Err(PackError::InvalidShort));
    assert_eq!(pack(&vec![slot("short", "")]), Err(PackError::InvalidShort));
    assert_eq!(hexlify_args(&vec![slot("short", "x")]), Err(PackError::InvalidShort));
}

#[test]
fn any_other_type_is_not_packed() {
    assert_eq!(pack(&vec![slot("bin", "00")]), Err(PackError::UnsupportedType));
    assert_eq!(pack(&vec![slot("", "")]), Err(PackError::UnsupportedType));
}

#[test]
fn the_first_slot_that_fails_decides() {
    let slots = vec![slot("int", "1"), slot("short", "x"), slot("bin", "y")];
    assert_eq!(pack(&slots), Err(PackError::InvalidShort));
    let slots = vec![slot("bin", "y"), slot("short", "x")];
    assert_eq!(pack(&slots), Err(PackError::UnsupportedType));
}

#[test]
fn a_value_without_encoding_leaves_the_block_as_it_was() {
    let mut block = vec![0xaa];
    assert_eq!(pack_value(&mut block, ArgKind::Int, "x"), Err(PackError::InvalidInteger));
    assert_eq!(block, vec![0xaa]);
    assert_eq!(pack_value(&mut block, ArgKind::Other, "x"), Err(PackError::UnsupportedType));
    assert_eq!(block, vec![0xaa]);
    assert_eq!(pack_value(&mut block, ArgKind::Short, "7"), Ok(()));
    assert_eq!(block, vec![0xaa, 0x07, 0x00]);
}

#[test]
fn the_block_comes_through_its_transport_form_unchanged() {
    let slots = vec![slot("wstr", "C:\\"), slot("int", "-5005"), slot("short", "7"), slot("str", "\u{e9}")];
    assert_eq!(transport_bytes(&slots), pack(&slots));
    assert_eq!(
        transport_bytes(&vec![slot("wstr", "C:\\"), slot("int", "5005")]),
        Ok(vec![
            0x04, 0x00, 0x00, 0x00, 0x43, 0x00, 0x3a, 0x00, 0x5c, 0x00, 0x00, 0x00, 0x8d, 0x13,
            0x00, 0x00
        ])
    );
    assert_eq!(transport_bytes(&Vec::new()), Ok(Vec::new()));
    assert_eq!(transport_bytes(&vec![slot("int", "x")]), Err(PackError::InvalidInteger));
    assert_eq!(transport_bytes(&vec![slot("bin", "x")]), Err(PackError::UnsupportedType));
}
