use vstd::prelude::*;

verus! {

pub open spec fn is_digit(c: char) -> bool {
    '0' <= c <= '9'
}

pub open spec fn digit_value(c: char) -> int {
    c as int - 0x30
}

pub open spec fn all_digits(s: Seq<char>) -> bool {
    forall|i: int| 0 <= i < s.len() ==> is_digit(#[trigger] s[i])
}

/// The number that a run of decimal digits writes, most significant digit first.
pub open spec fn digits_value(s: Seq<char>) -> int
    decreases s.len(),
{
    if s.len() == 0 {
        0
    } else {
        digits_value(s.drop_last()) * 10 + digit_value(s.last())
    }
}

pub open spec fn has_sign(s: Seq<char>) -> bool {
    s.len() > 0 && (s[0] == '+' || s[0] == '-')
}

/// The integer that a text writes in decimal: an optional `+` or `-`, then
/// one digit or more and nothing else. Any other text writes no integer.
pub open spec fn parse_decimal(s: Seq<char>) -> Option<int> {
    let digits = if has_sign(s) {
        s.skip(1)
    } else {
        s
    };
    if digits.len() == 0 || !all_digits(digits) {
        None
    } else if s[0] == '-' {
        Some(-digits_value(digits))
    } else {
        Some(digits_value(digits))
    }
}

/// `parse_decimal`, kept only where the number lies in `lo..=hi`.
pub open spec fn parse_within(s: Seq<char>, lo: int, hi: int) -> Option<int> {
    match parse_decimal(s) {
        Some(v) => if lo <= v <= hi {
            Some(v)
        } else {
            None
        },
        None => None,
    }
}

/// The position that a text names: a decimal integer without a minus sign
/// that fits the machine's index type.
pub open spec fn parse_index(s: Seq<char>) -> Option<int> {
    if s.len() > 0 && s[0] == '-' {
        None
    } else {
        parse_within(s, 0, usize::MAX as int)
    }
}

pub open spec fn parses_as_i64(s: Seq<char>) -> bool {
    parse_within(s, i64::MIN as int, i64::MAX as int) is Some
}

pub open spec fn parses_as_i32(s: Seq<char>) -> bool {
    parse_within(s, i32::MIN as int, i32::MAX as int) is Some
}

pub open spec fn parses_as_i16(s: Seq<char>) -> bool {
    parse_within(s, i16::MIN as int, i16::MAX as int) is Some
}

pub proof fn lemma_digits_value_step(s: Seq<char>, k: int)
    requires
        0 <= k < s.len(),
    ensures
        digits_value(s.take(k + 1)) == digits_value(s.take(k)) * 10 + digit_value(s[k]),
{
    assert(s.take(k + 1).drop_last() =~= s.take(k));
}

pub proof fn lemma_digits_value_grows(s: Seq<char>, k: int)
    requires
        all_digits(s),
        0 <= k <= s.len(),
    ensures
        0 <= digits_value(s.take(k)) <= digits_value(s),
    decreases s.len() - k,
{
    if k == s.len() {
        assert(s.take(k) =~= s);
        lemma_digits_value_nonnegative(s);
    } else {
        lemma_digits_value_step(s, k);
        lemma_digits_value_grows(s, k + 1);
        assert(all_digits(s.take(k))) by {
            assert forall|i: int| 0 <= i < s.take(k).len() implies is_digit(
                #[trigger] s.take(k)[i],
            ) by {
                assert(s.take(k)[i] == s[i]);
            }
        }
        lemma_digits_value_nonnegative(s.take(k));
        assert(is_digit(s[k]));
    }
}

pub proof fn lemma_digits_value_nonnegative(s: Seq<char>)
    requires
        all_digits(s),
    ensures
        0 <= digits_value(s),
    decreases s.len(),
{
    if s.len() > 0 {
        assert(all_digits(s.drop_last())) by {
            assert forall|i: int| 0 <= i < s.drop_last().len() implies is_digit(
                #[trigger] s.drop_last()[i],
            ) by {
                assert(s.drop_last()[i] == s[i]);
            }
        }
        lemma_digits_value_nonnegative(s.drop_last());
        assert(is_digit(s.last()));
    }
}

/// Reads `chars[from..to]` as a decimal integer within `lo..=hi`.
#[verifier::loop_isolation(false)]
pub fn parse_chars(chars: &Vec<char>, from: usize, to: usize, lo: i64, hi: u64) -> (r: Option<i128>)
    requires
        from <= to <= chars.len(),
    ensures
        r matches Some(v) ==> parse_within(chars@.subrange(from as int, to as int), lo as int, hi as int)
            == Some(v as int),
        r is None ==> parse_within(chars@.subrange(from as int, to as int), lo as int, hi as int)
            is None,
{
    let ghost text = chars@.subrange(from as int, to as int);
    if from == to {
        return None;
    }
    let first = chars[from];
    assert(first == text[0]);
    let negative = first == '-';
    let start: usize = if first == '-' || first == '+' {
        from + 1
    } else {
        from
    };
    let ghost digits = if has_sign(text) {
        text.skip(1)
    } else {
        text
    };
    assert(digits =~= chars@.subrange(start as int, to as int));
    if start == to {
        return None;
    }
    // the largest magnitude that the sign at hand lets through
    let limit: i128 = if negative {
        -(lo as i128)
    } else {
        hi as i128
    };
    if limit < 0 {
        proof {
            if all_digits(digits) {
                lemma_digits_value_nonnegative(digits);
            }
        }
        return None;
    }
    assert(limit <= 0xffff_ffff_ffff_ffff);
    let mut acc: i128 = 0;
    let mut i: usize = start;
    while i < to
        invariant
            start <= i <= to <= chars.len(),
            all_digits(digits.take(i - start)),
            acc == digits_value(digits.take(i - start)),
            0 <= acc,
            acc <= limit,
        decreases to - i,
    {
        let c = chars[i];
        assert(c == digits[i - start]);
        if !('0' <= c && c <= '9') {
            assert(!all_digits(digits));
            return None;
        }
        let d: i128 = (c as u32 - 0x30) as i128;
        let next: i128 = acc * 10 + d;
        proof {
            lemma_digits_value_step(digits, i - start);
            assert(all_digits(digits.take(i - start + 1))) by {
                assert forall|k: int| 0 <= k < i - start + 1 implies is_digit(
                    #[trigger] digits.take(i - start + 1)[k],
                ) by {
                    if k < i - start {
                        assert(digits.take(i - start)[k] == digits[k]);
                    }
                }
            }
        }
        if next > limit {
            proof {
                if all_digits(digits) {
                    lemma_digits_value_grows(digits, i - start + 1);
                }
            }
            return None;
        }
        acc = next;
        i += 1;
    }
    assert(digits.take(to - start) =~= digits);
    let value: i128 = if negative {
        -acc
    } else {
        acc
    };
    if value < lo as i128 || value > hi as i128 {
        return None;
    }
    Some(value)
}

/// The decimal digit for a value below ten.
pub open spec fn digit_char(d: nat) -> char {
    (0x30 + d) as char
}

/// A natural number written in decimal, without leading zeros.
pub open spec fn decimal_text(n: nat) -> Seq<char>
    decreases n,
{
    if n < 10 {
        seq![digit_char(n)]
    } else {
        decimal_text(n / 10).push(digit_char(n % 10))
    }
}

fn write_decimal(n: usize, out: &mut Vec<char>)
    ensures
        final(out)@ == old(out)@ + decimal_text(n as nat),
    decreases n,
{
    if n >= 10 {
        write_decimal(n / 10, out);
    }
    let d: u8 = (n % 10) as u8;
    out.push((0x30 + d) as char);
    assert(out@ =~= old(out)@ + decimal_text(n as nat));
}

/// Writes a position in decimal.
pub fn index_text(n: usize) -> (text: String)
    ensures
        text@ == decimal_text(n as nat),
{
    let mut digits: Vec<char> = Vec::new();
    write_decimal(n, &mut digits);
    let len = digits.len();
    assert(digits@.subrange(0, len as int) =~= digits@);
    crate::text::text_of(&digits, 0, len)
}

/// Reads a text as a position.
pub fn read_index(chars: &Vec<char>) -> (r: Option<usize>)
    ensures
        match r {
            Some(i) => parse_index(chars@) == Some(i as int),
            None => parse_index(chars@) is None,
        },
{
    let n = chars.len();
    assert(chars@.subrange(0, n as int) =~= chars@);
    if n > 0 && chars[0] == '-' {
        return None;
    }
    match parse_chars(chars, 0, n, 0, usize::MAX as u64) {
        Some(v) => Some(v as usize),
        None => None,
    }
}

} // verus!
