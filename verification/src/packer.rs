use crate::decimal::{parse_chars, parse_within};
use crate::models::config_file::{kind_of, ArgKind};
use crate::models::payload::{slots_view, Payload, Slot};
use crate::text::chars_of;
use vstd::prelude::*;
use vstd::utf8::encode_utf8;

verus! {

/// Why a run of bound values could not be packed.
#[derive(Clone, Copy, Debug, PartialEq, Eq, Structural)]
pub enum PackError {
    /// The value of an `int` argument is no 32-bit integer.
    InvalidInteger,
    /// The value of a `short` argument is no 16-bit integer.
    InvalidShort,
    /// The argument is of a type that has no encoding.
    UnsupportedType,
    /// The length of a string, with its terminator, does not fit the four
    /// bytes of the length field.
    ValueTooLong,
}

/// The low `width` bytes of an integer in two's complement, low byte first.
pub open spec fn le_bytes(v: int, width: nat) -> Seq<u8>
    decreases width,
{
    if width == 0 {
        Seq::empty()
    } else {
        seq![(v % 256) as u8] + le_bytes(v / 256, (width - 1) as nat)
    }
}

/// The UTF-16 code units of one character: the character itself below
/// U+10000, a high and a low surrogate above.
pub open spec fn utf16_of_char(c: char) -> Seq<u16> {
    let v = c as u32;
    if v < 0x10000 {
        seq![v as u16]
    } else {
        seq![(0xD800 + (v - 0x10000) / 0x400) as u16, (0xDC00 + (v - 0x10000) % 0x400) as u16]
    }
}

/// The UTF-16 code units of a text.
pub open spec fn utf16(text: Seq<char>) -> Seq<u16>
    decreases text.len(),
{
    if text.len() == 0 {
        Seq::empty()
    } else {
        utf16(text.drop_last()) + utf16_of_char(text.last())
    }
}

/// The bytes of a run of 16-bit units, each unit low byte first.
pub open spec fn units_bytes(units: Seq<u16>) -> Seq<u8> {
    Seq::new(
        2 * units.len(),
        |i: int|
            if i % 2 == 0 {
                (units[i / 2] % 256) as u8
            } else {
                (units[i / 2] / 256) as u8
            },
    )
}

/// A narrow string on the wire: the count of its UTF-8 bytes and the
/// terminator in four bytes, the UTF-8 bytes, one zero byte.
pub open spec fn str_block(text: Seq<char>) -> Seq<u8> {
    le_bytes(encode_utf8(text).len() as int + 1, 4) + encode_utf8(text) + seq![0u8]
}

/// A wide string on the wire: the count of its UTF-16 units and the
/// terminator in four bytes, the units low byte first, one zero unit.
pub open spec fn wstr_block(text: Seq<char>) -> Seq<u8> {
    le_bytes(utf16(text).len() as int + 1, 4) + units_bytes(utf16(text)) + seq![0u8, 0u8]
}

/// The bytes that stand for one bound value of the kind.
pub open spec fn encode_value(kind: ArgKind, value: Seq<char>) -> Result<Seq<u8>, PackError> {
    match kind {
        ArgKind::Str => if encode_utf8(value).len() + 1 <= u32::MAX {
            Ok(str_block(value))
        } else {
            Err(PackError::ValueTooLong)
        },
        ArgKind::Wstr => if utf16(value).len() + 1 <= u32::MAX {
            Ok(wstr_block(value))
        } else {
            Err(PackError::ValueTooLong)
        },
        ArgKind::Int => match parse_within(value, i32::MIN as int, i32::MAX as int) {
            Some(v) => Ok(le_bytes(v, 4)),
            None => Err(PackError::InvalidInteger),
        },
        ArgKind::Short => match parse_within(value, i16::MIN as int, i16::MAX as int) {
            Some(v) => Ok(le_bytes(v, 2)),
            None => Err(PackError::InvalidShort),
        },
        ArgKind::Other => Err(PackError::UnsupportedType),
    }
}

/// The argument block of a run of slots: the encodings of their values in
/// order, one after the other with nothing between them. The first slot
/// that has no encoding decides the failure.
pub open spec fn pack_result(slots: Seq<Slot>) -> Result<Seq<u8>, PackError>
    decreases slots.len(),
{
    if slots.len() == 0 {
        Ok(Seq::empty())
    } else {
        match pack_result(slots.drop_last()) {
            Err(e) => Err(e),
            Ok(head) => match encode_value(kind_of(slots.last().arg.kind), slots.last().value) {
                Err(e) => Err(e),
                Ok(block) => Ok(head + block),
            },
        }
    }
}

proof fn lemma_add_multiple_of_256(v: int, m: int)
    ensures
        (v + 256 * m) % 256 == v % 256,
        (v + 256 * m) / 256 == v / 256 + m,
{
}

/// Adding 256 to the power of the width changes none of the low bytes.
proof fn lemma_le_bytes_wrap(v: int)
    ensures
        le_bytes(v + 0x1_0000_0000, 4) == le_bytes(v, 4),
        le_bytes(v + 0x1_0000, 2) == le_bytes(v, 2),
{
    reveal_with_fuel(le_bytes, 5);
    lemma_add_multiple_of_256(v, 0x100_0000);
    lemma_add_multiple_of_256(v / 256, 0x1_0000);
    lemma_add_multiple_of_256(v / 256 / 256, 0x100);
    lemma_add_multiple_of_256(v / 256 / 256 / 256, 1);
    lemma_add_multiple_of_256(v, 0x100);
    lemma_add_multiple_of_256(v / 256, 1);
}

fn push_le_4(out: &mut Vec<u8>, v: i64)
    requires
        i32::MIN <= v <= u32::MAX,
    ensures
        final(out)@ == old(out)@ + le_bytes(v as int, 4),
{
    let u: u64 = if v >= 0 {
        v as u64
    } else {
        (v + 0x1_0000_0000) as u64
    };
    proof {
        lemma_le_bytes_wrap(v as int);
    }
    assert(le_bytes(u as int, 4) == le_bytes(v as int, 4));
    let b0: u8 = (u % 256) as u8;
    let u1: u64 = u / 256;
    let b1: u8 = (u1 % 256) as u8;
    let u2: u64 = u1 / 256;
    let b2: u8 = (u2 % 256) as u8;
    let u3: u64 = u2 / 256;
    let b3: u8 = (u3 % 256) as u8;
    assert(seq![b0, b1, b2, b3] =~= le_bytes(u as int, 4)) by {
        reveal_with_fuel(le_bytes, 5);
    }
    out.push(b0);
    out.push(b1);
    out.push(b2);
    out.push(b3);
    assert(out@ =~= old(out)@ + seq![b0, b1, b2, b3]);
}

fn push_le_2(out: &mut Vec<u8>, v: i32)
    requires
        i16::MIN <= v <= u16::MAX,
    ensures
        final(out)@ == old(out)@ + le_bytes(v as int, 2),
{
    let u: u32 = if v >= 0 {
        v as u32
    } else {
        (v + 0x1_0000) as u32
    };
    proof {
        lemma_le_bytes_wrap(v as int);
    }
    assert(le_bytes(u as int, 2) == le_bytes(v as int, 2));
    let b0: u8 = (u % 256) as u8;
    let u1: u32 = u / 256;
    let b1: u8 = (u1 % 256) as u8;
    assert(seq![b0, b1] =~= le_bytes(u as int, 2)) by {
        reveal_with_fuel(le_bytes, 3);
    }
    out.push(b0);
    out.push(b1);
    assert(out@ =~= old(out)@ + seq![b0, b1]);
}

/// The UTF-16 code units of a string.
pub fn utf16_units(text: &str) -> (units: Vec<u16>)
    ensures
        units@ == utf16(text@),
{
    let mut units: Vec<u16> = Vec::new();
    for c in it: text.chars()
        invariant
            it.seq() == text@,
            units@ == utf16(it.seq().take(it.index() as int)),
    {
        proof {
            let k = it.index() as int;
            assert(it.seq().take(k + 1).drop_last() =~= it.seq().take(k));
            assert(it.seq().take(k + 1).last() == c);
        }
        let v: u32 = c as u32;
        proof {
            vstd::utf8::char_is_scalar(c);
        }
        let ghost before = units@;
        if v < 0x10000 {
            units.push(v as u16);
        } else {
            let w: u32 = v - 0x10000;
            units.push((0xD800 + w / 0x400) as u16);
            units.push((0xDC00 + w % 0x400) as u16);
        }
        assert(units@ =~= before + utf16_of_char(c));
        assert(units@ =~= utf16(it.seq().take(it.index() + 1)));
    }
    assert(text@.take(text@.len() as int) =~= text@);
    units
}

fn push_str_block(out: &mut Vec<u8>, value: &str) -> (done: Result<(), PackError>)
    ensures
        match encode_value(ArgKind::Str, value@) {
            Ok(block) => done is Ok && final(out)@ == old(out)@ + block,
            Err(e) => done == Err::<(), PackError>(e) && final(out)@ == old(out)@,
        },
{
    let bytes = value.as_bytes();
    let n = bytes.len();
    if n >= 0xffff_ffff {
        return Err(PackError::ValueTooLong);
    }
    push_le_4(out, (n + 1) as i64);
    let mut i: usize = 0;
    while i < n
        invariant
            i <= n,
            n == bytes@.len(),
            bytes@ == encode_utf8(value@),
            out@ == old(out)@ + le_bytes(n + 1, 4) + bytes@.take(i as int),
        decreases n - i,
    {
        out.push(bytes[i]);
        assert(out@ =~= old(out)@ + le_bytes(n + 1, 4) + bytes@.take(i + 1));
        i += 1;
    }
    out.push(0u8);
    assert(bytes@.take(n as int) =~= bytes@);
    assert(out@ =~= old(out)@ + str_block(value@));
    Ok(())
}

fn push_wstr_block(out: &mut Vec<u8>, value: &str) -> (done: Result<(), PackError>)
    ensures
        match encode_value(ArgKind::Wstr, value@) {
            Ok(block) => done is Ok && final(out)@ == old(out)@ + block,
            Err(e) => done == Err::<(), PackError>(e) && final(out)@ == old(out)@,
        },
{
    let units = utf16_units(value);
    let n = units.len();
    if n >= 0xffff_ffff {
        return Err(PackError::ValueTooLong);
    }
    push_le_4(out, (n + 1) as i64);
    let ghost head = out@;
    let mut i: usize = 0;
    while i < n
        invariant
            i <= n,
            n == units@.len(),
            out@ == head + units_bytes(units@.take(i as int)),
        decreases n - i,
    {
        let u: u16 = units[i];
        out.push((u % 256) as u8);
        out.push((u / 256) as u8);
        assert(out@ =~= head + units_bytes(units@.take(i + 1))) by {
            let a = units_bytes(units@.take(i as int));
            let b = units_bytes(units@.take(i + 1));
            assert(b.len() == a.len() + 2);
            assert forall|k: int| 0 <= k < a.len() implies a[k] == b[k] by {
                assert(units@.take(i as int)[k / 2] == units@.take(i + 1)[k / 2]);
            }
            assert(b[2 * i] == (u % 256) as u8);
            assert(b[2 * i + 1] == (u / 256) as u8);
        }
        i += 1;
    }
    out.push(0u8);
    out.push(0u8);
    assert(units@.take(n as int) =~= units@);
    assert(out@ =~= old(out)@ + wstr_block(value@));
    Ok(())
}

/// Appends the encoding of one bound value to the block, or leaves the
/// block as it is where the value has none.
pub fn pack_value(out: &mut Vec<u8>, kind: ArgKind, value: &str) -> (done: Result<(), PackError>)
    ensures
        match encode_value(kind, value@) {
            Ok(block) => done is Ok && final(out)@ == old(out)@ + block,
            Err(e) => done == Err::<(), PackError>(e) && final(out)@ == old(out)@,
        },
{
    match kind {
        ArgKind::Str => push_str_block(out, value),
        ArgKind::Wstr => push_wstr_block(out, value),
        ArgKind::Int => {
            let chars = chars_of(value);
            assert(chars@.subrange(0, chars.len() as int) =~= value@);
            match parse_chars(&chars, 0, chars.len(), -0x8000_0000, 0x7fff_ffff) {
                Some(v) => {
                    push_le_4(out, v as i64);
                    Ok(())
                },
                None => Err(PackError::InvalidInteger),
            }
        },
        ArgKind::Short => {
            let chars = chars_of(value);
            assert(chars@.subrange(0, chars.len() as int) =~= value@);
            match parse_chars(&chars, 0, chars.len(), -0x8000, 0x7fff) {
                Some(v) => {
                    push_le_2(out, v as i32);
                    Ok(())
                },
                None => Err(PackError::InvalidShort),
            }
        },
        ArgKind::Other => Err(PackError::UnsupportedType),
    }
}

/// Packs the values of the slots, in their order, into the argument block.
pub fn pack(payloads: &Vec<Payload>) -> (packed: Result<Vec<u8>, PackError>)
    ensures
        match packed {
            Ok(bytes) => pack_result(slots_view(payloads@)) == Ok::<Seq<u8>, PackError>(bytes@),
            Err(e) => pack_result(slots_view(payloads@)) == Err::<Seq<u8>, PackError>(e),
        },
{
    let ghost slots = slots_view(payloads@);
    let mut out: Vec<u8> = Vec::new();
    let mut i: usize = 0;
    while i < payloads.len()
        invariant
            i <= payloads.len(),
            slots == slots_view(payloads@),
            pack_result(slots.take(i as int)) == Ok::<Seq<u8>, PackError>(out@),
        decreases payloads.len() - i,
    {
        proof {
            assert(slots.take(i + 1).drop_last() =~= slots.take(i as int));
            assert(slots.take(i + 1).last() == payloads[i as int]@);
        }
        let kind = payloads[i].arg.arg_kind();
        match pack_value(&mut out, kind, payloads[i].value.as_str()) {
            Ok(()) => {},
            Err(e) => {
                proof {
                    lemma_pack_failure_stays(slots, i + 1);
                }
                return Err(e);
            },
        }
        i += 1;
    }
    assert(slots.take(payloads.len() as int) =~= slots);
    Ok(out)
}

/// Once a run of slots fails to pack, every longer run fails in the same way.
pub proof fn lemma_pack_failure_stays(slots: Seq<Slot>, k: int)
    requires
        0 <= k <= slots.len(),
        pack_result(slots.take(k)) is Err,
    ensures
        pack_result(slots) == pack_result(slots.take(k)),
    decreases slots.len() - k,
{
    if k == slots.len() {
        assert(slots.take(k) =~= slots);
    } else {
        assert(slots.take(k + 1).drop_last() =~= slots.take(k));
        lemma_pack_failure_stays(slots, k + 1);
    }
}

} // verus!
