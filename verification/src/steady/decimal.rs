//! Decimal numbers as text: the digits of a number, and the number that
//! digits write.

use vstd::prelude::*;

verus! {

/// Whether `c` is one of the ASCII digits `0` to `9`.
pub open spec fn is_digit(c: char) -> bool {
    '0' <= c <= '9'
}

/// The number that the ASCII digit `c` stands for.
pub open spec fn digit_value(c: char) -> int {
    c as int - '0' as int
}

/// Whether `s` holds ASCII digits only.
pub open spec fn all_digits(s: Seq<char>) -> bool {
    forall|i: int| 0 <= i < s.len() ==> is_digit(#[trigger] s[i])
}

/// The number written by the decimal digits `s`, most significant first.
pub open spec fn decimal_value(s: Seq<char>) -> int
    decreases s.len(),
{
    if s.len() == 0 {
        0
    } else {
        10 * decimal_value(s.drop_last()) + digit_value(s.last())
    }
}

/// The number written by the digits `s`. `None` where `s` is empty, holds
/// anything but digits, or writes a number above `max`.
pub open spec fn parse_digits(s: Seq<char>, max: int) -> Option<int> {
    if s.len() > 0 && all_digits(s) && decimal_value(s) <= max {
        Some(decimal_value(s))
    } else {
        None
    }
}

/// The number written by `s` as an unsigned decimal: an optional `+`, then
/// one digit or more. `None` where `s` has another shape or the number is
/// above `max`.
pub open spec fn parse_unsigned(s: Seq<char>, max: int) -> Option<int> {
    if s.len() > 0 && s.first() == '+' {
        parse_digits(s.drop_first(), max)
    } else {
        parse_digits(s, max)
    }
}

/// The number written by `s` as a signed decimal: an optional `+` or `-`,
/// then one digit or more. `None` where `s` has another shape or the number
/// lies outside `min ..= max`.
pub open spec fn parse_signed(s: Seq<char>, min: int, max: int) -> Option<int> {
    if s.len() > 0 && s.first() == '-' {
        match parse_digits(s.drop_first(), -min) {
            Some(magnitude) => Some(-magnitude),
            None => None,
        }
    } else {
        parse_unsigned(s, max)
    }
}

/// The number written by `s`, where it is a signed decimal of 16 bits.
pub open spec fn parse_i16_text(s: Seq<char>) -> Option<i16> {
    match parse_signed(s, -0x8000, 0x7FFF) {
        Some(n) => Some(n as i16),
        None => None,
    }
}

/// The number written by `s`, where it is an unsigned decimal of 8 bits.
pub open spec fn parse_u8_text(s: Seq<char>) -> Option<u8> {
    match parse_unsigned(s, 0xFF) {
        Some(n) => Some(n as u8),
        None => None,
    }
}

/// The ASCII digit that stands for `d`, a number below ten.
pub open spec fn digit_char(d: int) -> char {
    (d + '0' as int) as char
}

/// The decimal digits of `n`, most significant first, without leading zeros.
pub open spec fn decimal_digits(n: nat) -> Seq<char>
    decreases n,
{
    if n < 10 {
        seq![digit_char(n as int)]
    } else {
        decimal_digits(n / 10).push(digit_char((n % 10) as int))
    }
}

/// The decimal digits of `n`, with a leading zero where `n` is below ten.
pub open spec fn zero_padded(n: nat) -> Seq<char> {
    if n < 10 {
        seq!['0'] + decimal_digits(n)
    } else {
        decimal_digits(n)
    }
}

/// A decimal number is never negative.
pub proof fn lemma_decimal_value_nonnegative(s: Seq<char>)
    requires
        all_digits(s),
    ensures
        decimal_value(s) >= 0,
    decreases s.len(),
{
    if s.len() > 0 {
        lemma_decimal_value_nonnegative(s.drop_last());
        assert(is_digit(s[s.len() - 1]));
    }
}

/// Appending digits never makes a decimal number smaller.
pub proof fn lemma_decimal_value_grows(s: Seq<char>, k: int)
    requires
        all_digits(s),
        0 <= k <= s.len(),
    ensures
        decimal_value(s.take(k)) <= decimal_value(s),
    decreases s.len() - k,
{
    if k == s.len() {
        assert(s.take(k) =~= s);
    } else {
        let t = s.drop_last();
        lemma_decimal_value_grows(t, k);
        assert(t.take(k) =~= s.take(k));
        lemma_decimal_value_nonnegative(t);
        assert(is_digit(s[s.len() - 1]));
    }
}

/// Tests `c` for an ASCII digit.
pub fn is_ascii_digit(c: char) -> (b: bool)
    ensures
        b == is_digit(c),
{
    '0' <= c && c <= '9'
}

/// The number that the ASCII digit `c` stands for.
pub(crate) fn digit_of(c: char) -> (d: u32)
    requires
        is_digit(c),
    ensures
        d == digit_value(c),
        d <= 9,
{
    c as u32 - '0' as u32
}

/// Reads `v[lo..hi]` as a run of decimal digits that writes a number of at
/// most `max`.
pub(crate) fn read_digits(v: &Vec<char>, lo: usize, hi: usize, max: u32) -> (r: Option<u32>)
    requires
        lo <= hi <= v.len(),
        max <= 0xFFFF,
    ensures
        match r {
            Some(n) => n <= max && parse_digits(v@.subrange(lo as int, hi as int), max as int)
                == Some(n as int),
            None => parse_digits(v@.subrange(lo as int, hi as int), max as int) is None,
        },
{
    if lo == hi {
        return None;
    }
    let ghost s = v@.subrange(lo as int, hi as int);
    let mut acc: u32 = 0;
    let mut i: usize = lo;
    while i < hi
        invariant
            lo <= i <= hi <= v.len(),
            max <= 0xFFFF,
            s == v@.subrange(lo as int, hi as int),
            all_digits(s.take(i - lo)),
            acc == decimal_value(s.take(i - lo)),
            acc <= max,
        decreases hi - i,
    {
        let c: char = v[i];
        proof {
            assert(s[i - lo] == c);
            assert(s.take(i - lo + 1).drop_last() =~= s.take(i - lo));
            assert(s.take(i - lo + 1).last() == c);
        }
        if !is_ascii_digit(c) {
            return None;
        }
        let next: u32 = acc * 10 + digit_of(c);
        if next > max {
            proof {
                if all_digits(s) {
                    lemma_decimal_value_grows(s, i - lo + 1);
                }
            }
            return None;
        }
        acc = next;
        i += 1;
    }
    proof {
        assert(s.take(hi - lo) =~= s);
    }
    Some(acc)
}

/// Reads `v[lo..hi]` as a signed decimal of 16 bits.
pub(crate) fn read_i16_text(v: &Vec<char>, lo: usize, hi: usize) -> (r: Option<i16>)
    requires
        lo <= hi <= v.len(),
    ensures
        r == parse_i16_text(v@.subrange(lo as int, hi as int)),
{
    let ghost s = v@.subrange(lo as int, hi as int);
    if lo < hi && v[lo] == '-' {
        proof {
            assert(s.first() == v@[lo as int]);
            assert(s.drop_first() =~= v@.subrange(lo + 1, hi as int));
        }
        match read_digits(v, lo + 1, hi, 0x8000) {
            Some(n) => Some((0 - (n as i32)) as i16),
            None => None,
        }
    } else if lo < hi && v[lo] == '+' {
        proof {
            assert(s.first() == v@[lo as int]);
            assert(s.drop_first() =~= v@.subrange(lo + 1, hi as int));
        }
        match read_digits(v, lo + 1, hi, 0x7FFF) {
            Some(n) => Some(n as i16),
            None => None,
        }
    } else {
        proof {
            if lo < hi {
                assert(s.first() == v@[lo as int]);
            }
        }
        match read_digits(v, lo, hi, 0x7FFF) {
            Some(n) => Some(n as i16),
            None => None,
        }
    }
}

/// Reads `v[lo..hi]` as an unsigned decimal of 8 bits.
pub(crate) fn read_u8_text(v: &Vec<char>, lo: usize, hi: usize) -> (r: Option<u8>)
    requires
        lo <= hi <= v.len(),
    ensures
        r == parse_u8_text(v@.subrange(lo as int, hi as int)),
{
    let ghost s = v@.subrange(lo as int, hi as int);
    let from: usize = if lo < hi && v[lo] == '+' {
        lo + 1
    } else {
        lo
    };
    proof {
        if lo < hi {
            assert(s.first() == v@[lo as int]);
            assert(s.drop_first() =~= v@.subrange(lo + 1, hi as int));
        }
    }
    match read_digits(v, from, hi, 0xFF) {
        Some(n) => Some(n as u8),
        None => None,
    }
}

/// The text of one decimal digit.
pub(crate) fn digit_text(d: u16) -> (text: &'static str)
    requires
        d < 10,
    ensures
        text@ == seq![digit_char(d as int)],
{
    proof {
        reveal_strlit("0");
        reveal_strlit("1");
        reveal_strlit("2");
        reveal_strlit("3");
        reveal_strlit("4");
        reveal_strlit("5");
        reveal_strlit("6");
        reveal_strlit("7");
        reveal_strlit("8");
        reveal_strlit("9");
    }
    let text: &'static str = match d {
        0 => "0",
        1 => "1",
        2 => "2",
        3 => "3",
        4 => "4",
        5 => "5",
        6 => "6",
        7 => "7",
        8 => "8",
        _ => "9",
    };
    assert(text@ =~= seq![digit_char(d as int)]);
    text
}

/// Appends the decimal digits of `n` to `out`.
pub fn append_decimal(out: &mut String, n: u16)
    ensures
        final(out)@ == old(out)@ + decimal_digits(n as nat),
    decreases n,
{
    if n >= 10 {
        append_decimal(out, n / 10);
    }
    let ghost before = out@;
    out.append(digit_text(n % 10));
    proof {
        if n >= 10 {
            assert(before.push(digit_char((n % 10) as int)) =~= before + seq![
                digit_char((n % 10) as int),
            ]);
            assert(out@ =~= old(out)@ + decimal_digits(n as nat));
        }
    }
}

/// Appends the decimal digits of `n` to `out`, with a leading zero where
/// `n` is below ten.
pub fn append_zero_padded(out: &mut String, n: u16)
    ensures
        final(out)@ == old(out)@ + zero_padded(n as nat),
{
    if n < 10 {
        proof {
            reveal_strlit("0");
        }
        out.append("0");
        assert(out@ =~= old(out)@ + seq!['0']);
    }
    append_decimal(out, n);
    assert(out@ =~= old(out)@ + zero_padded(n as nat));
}

} // verus!
