use crate::models::payload::{slots_view, Payload};
use crate::packer::{pack, pack_result, PackError};
use crate::text::{chars_of, text_of};
use vstd::prelude::*;

verus! {

/// Why a transport string could not be decoded.
#[derive(Clone, Copy, Debug, PartialEq, Eq, Structural)]
pub enum TransportError {
    /// The string has an odd number of characters, or holds a character
    /// that is no hexadecimal digit.
    MalformedHex,
}

/// The upper-case hexadecimal digit for a value below 16.
pub open spec fn hex_digit(v: int) -> char {
    if v < 10 {
        (0x30 + v) as char
    } else {
        (0x41 + v - 10) as char
    }
}

/// The value of a hexadecimal digit of either case; nothing for any other
/// character.
pub open spec fn hex_value(c: char) -> Option<int> {
    if '0' <= c <= '9' {
        Some(c as int - 0x30)
    } else if 'A' <= c <= 'F' {
        Some(c as int - 0x41 + 10)
    } else if 'a' <= c <= 'f' {
        Some(c as int - 0x61 + 10)
    } else {
        None
    }
}

/// The transport form of a run of bytes: two upper-case hexadecimal digits
/// for each byte, the high half first, and nothing else.
pub open spec fn hex_text(bytes: Seq<u8>) -> Seq<char> {
    Seq::new(
        2 * bytes.len(),
        |i: int|
            if i % 2 == 0 {
                hex_digit(bytes[i / 2] as int / 16)
            } else {
                hex_digit(bytes[i / 2] as int % 16)
            },
    )
}

/// A text that is a transport form: an even number of characters, each a
/// hexadecimal digit.
pub open spec fn is_hex_text(text: Seq<char>) -> bool {
    &&& text.len() % 2 == 0
    &&& forall|i: int| 0 <= i < text.len() ==> (#[trigger] hex_value(text[i])) is Some
}

/// The bytes that a transport form stands for; nothing for a text that is
/// no transport form.
pub open spec fn hex_bytes(text: Seq<char>) -> Option<Seq<u8>> {
    if is_hex_text(text) {
        Some(
            Seq::new(
                text.len() / 2,
                |i: int| (hex_value(text[2 * i])->0 * 16 + hex_value(text[2 * i + 1])->0) as u8,
            ),
        )
    } else {
        None
    }
}

/// Decoding the transport form of any run of bytes gives the bytes back.
pub proof fn lemma_hex_round_trip(bytes: Seq<u8>)
    ensures
        hex_bytes(hex_text(bytes)) == Some(bytes),
{
    let text = hex_text(bytes);
    assert forall|i: int| 0 <= i < text.len() implies (#[trigger] hex_value(text[i])) is Some by {
        lemma_hex_digit_value(bytes[i / 2] as int / 16);
        lemma_hex_digit_value(bytes[i / 2] as int % 16);
    }
    assert(is_hex_text(text));
    let back = hex_bytes(text)->0;
    assert forall|k: int| 0 <= k < bytes.len() implies back[k] == bytes[k] by {
        lemma_hex_digit_value(bytes[k] as int / 16);
        lemma_hex_digit_value(bytes[k] as int % 16);
        assert(text[2 * k] == hex_digit(bytes[(2 * k) / 2] as int / 16));
        assert(text[2 * k + 1] == hex_digit(bytes[(2 * k + 1) / 2] as int % 16));
    }
    assert(back =~= bytes);
}

/// A digit written by `hex_digit` reads back as the value it was written for.
pub proof fn lemma_hex_digit_value(v: int)
    requires
        0 <= v < 16,
    ensures
        hex_value(hex_digit(v)) == Some(v),
{
}

fn digit_for(v: u8) -> (c: char)
    requires
        v < 16,
    ensures
        c == hex_digit(v as int),
{
    if v < 10 {
        (0x30 + v) as char
    } else {
        (0x41 + v - 10) as char
    }
}

fn value_of(c: char) -> (v: Option<u8>)
    ensures
        match v {
            Some(d) => hex_value(c) == Some(d as int),
            None => hex_value(c) is None,
        },
{
    if '0' <= c && c <= '9' {
        Some((c as u32 - 0x30) as u8)
    } else if 'A' <= c && c <= 'F' {
        Some((c as u32 - 0x41 + 10) as u8)
    } else if 'a' <= c && c <= 'f' {
        Some((c as u32 - 0x61 + 10) as u8)
    } else {
        None
    }
}

/// Encodes a run of bytes in its transport form.
pub fn to_hex(bytes: &Vec<u8>) -> (text: String)
    ensures
        text@ == hex_text(bytes@),
{
    let mut digits: Vec<char> = Vec::new();
    let mut i: usize = 0;
    while i < bytes.len()
        invariant
            i <= bytes.len(),
            digits@ == hex_text(bytes@.take(i as int)),
        decreases bytes.len() - i,
    {
        let b: u8 = bytes[i];
        digits.push(digit_for(b / 16));
        digits.push(digit_for(b % 16));
        assert(digits@ =~= hex_text(bytes@.take(i + 1))) by {
            let before = hex_text(bytes@.take(i as int));
            let after = hex_text(bytes@.take(i + 1));
            assert forall|k: int| 0 <= k < before.len() implies before[k] == after[k] by {
                assert(bytes@.take(i as int)[k / 2] == bytes@.take(i + 1)[k / 2]);
            }
            assert(after[2 * i] == hex_digit(b as int / 16));
            assert(after[2 * i + 1] == hex_digit(b as int % 16));
        }
        i += 1;
    }
    assert(bytes@.take(bytes.len() as int) =~= bytes@);
    let n = digits.len();
    let text = text_of(&digits, 0, n);
    assert(digits@.subrange(0, n as int) =~= digits@);
    text
}

/// Decodes a transport form into the bytes it stands for.
pub fn from_hex(text: &str) -> (decoded: Result<Vec<u8>, TransportError>)
    ensures
        match decoded {
            Ok(bytes) => hex_bytes(text@) == Some(bytes@),
            Err(e) => hex_bytes(text@) is None && e == TransportError::MalformedHex,
        },
{
    let chars = chars_of(text);
    let n = chars.len();
    if n % 2 != 0 {
        return Err(TransportError::MalformedHex);
    }
    let mut bytes: Vec<u8> = Vec::new();
    let mut i: usize = 0;
    while i < n / 2
        invariant
            i <= n / 2,
            n == chars.len(),
            n % 2 == 0,
            chars@ == text@,
            bytes.len() == i,
            forall|k: int| 0 <= k < 2 * i ==> (#[trigger] hex_value(text@[k])) is Some,
            forall|k: int|
                0 <= k < i ==> #[trigger] bytes[k] == (hex_value(text@[2 * k])->0 * 16 + hex_value(
                    text@[2 * k + 1],
                )->0) as u8,
        decreases n / 2 - i,
    {
        let high = match value_of(chars[2 * i]) {
            Some(v) => v,
            None => {
                assert(hex_value(text@[2 * i]) is None);
                return Err(TransportError::MalformedHex);
            },
        };
        let low = match value_of(chars[2 * i + 1]) {
            Some(v) => v,
            None => {
                assert(hex_value(text@[2 * i + 1]) is None);
                return Err(TransportError::MalformedHex);
            },
        };
        bytes.push(high * 16 + low);
        i += 1;
    }
    assert(is_hex_text(text@));
    assert(bytes@ =~= hex_bytes(text@)->0);
    Ok(bytes)
}

/// Packs the values of the slots into the argument block and gives the
/// block in its transport form.
pub fn hexlify_args(payloads: &Vec<Payload>) -> (encoded: Result<String, PackError>)
    ensures
        match encoded {
            Ok(text) => pack_result(slots_view(payloads@)) matches Ok(bytes) && text@ == hex_text(
                bytes,
            ),
            Err(e) => pack_result(slots_view(payloads@)) == Err::<Seq<u8>, PackError>(e),
        },
{
    match pack(payloads) {
        Ok(bytes) => Ok(to_hex(&bytes)),
        Err(e) => Err(e),
    }
}

/// Packs the values of the slots and takes the block through its
/// transport form: encoded, then decoded again. What comes back is the
/// packed block itself, byte for byte; the way through the transport form
/// loses nothing and cannot fail.
pub fn transport_bytes(payloads: &Vec<Payload>) -> (r: Result<Vec<u8>, PackError>)
    ensures
        match r {
            Ok(bytes) => pack_result(slots_view(payloads@)) == Ok::<Seq<u8>, PackError>(bytes@),
            Err(e) => pack_result(slots_view(payloads@)) == Err::<Seq<u8>, PackError>(e),
        },
{
    let text = match hexlify_args(payloads) {
        Ok(text) => text,
        Err(e) => {
            return Err(e);
        },
    };
    proof {
        lemma_hex_round_trip(pack_result(slots_view(payloads@))->Ok_0);
    }
    match from_hex(text.as_str()) {
        Ok(bytes) => Ok(bytes),
        Err(_) => vstd::pervasive::unreached(),
    }
}

} // verus!
