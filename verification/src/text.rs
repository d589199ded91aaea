//! Decimal text: rendering levels and deltas into command arguments, and
//! reading levels back out of mixer tool output.
//!
//! Backends take volume values as decimal text inside command arguments and
//! report them as decimal text inside free-form output, so both directions
//! are defined here once, against one pair of spec functions.

use vstd::prelude::*;
use crate::parse::all_digits;
use crate::parse::dec_value;

verus! {

/// The decimal digit character for `d` in `0 ..= 9`.
pub open spec fn digit_char(d: int) -> char {
    if d == 0 {
        '0'
    } else if d == 1 {
        '1'
    } else if d == 2 {
        '2'
    } else if d == 3 {
        '3'
    } else if d == 4 {
        '4'
    } else if d == 5 {
        '5'
    } else if d == 6 {
        '6'
    } else if d == 7 {
        '7'
    } else if d == 8 {
        '8'
    } else {
        '9'
    }
}

/// The usual decimal rendering of `n`: no sign, no leading zeros (except for
/// `0` itself).
pub open spec fn dec_digits(n: nat) -> Seq<char>
    decreases n,
{
    if n < 10 {
        seq![digit_char(n as int)]
    } else {
        dec_digits(n / 10) + seq![digit_char((n % 10) as int)]
    }
}

/// The decimal rendering of a signed value: a leading `-` for negatives.
pub open spec fn dec_digits_signed(n: int) -> Seq<char> {
    if n < 0 {
        seq!['-'] + dec_digits((-n) as nat)
    } else {
        dec_digits(n as nat)
    }
}

/// Append the single decimal digit `d` to `s`.
fn push_digit(s: &mut String, d: u32)
    requires
        d < 10,
    ensures
        final(s)@ == old(s)@ + seq![digit_char(d as int)],
{
    proof {
        reveal_strlit("0");
        reveal_strlit("1");
        reveal_strlit("2");
        reveal_strlit("3");
        reveal_strlit("4");
        reveal_strlit("5");
        reveal_strlit("6");
        reveal_strlit("7");
        reveal_strlit("8");
        reveal_strlit("9");
    }
    match d {
        0 => s.append("0"),
        1 => s.append("1"),
        2 => s.append("2"),
        3 => s.append("3"),
        4 => s.append("4"),
        5 => s.append("5"),
        6 => s.append("6"),
        7 => s.append("7"),
        8 => s.append("8"),
        _ => s.append("9"),
    }
    proof {
        assert(final(s)@ =~= old(s)@ + seq![digit_char(d as int)]);
    }
}

/// Append the decimal rendering of `n` to `s`.
pub fn push_decimal(s: &mut String, n: u32)
    ensures
        final(s)@ == old(s)@ + dec_digits(n as nat),
    decreases n,
{
    if n < 10 {
        push_digit(s, n);
    } else {
        push_decimal(s, n / 10);
        push_digit(s, n % 10);
        proof {
            assert(final(s)@ =~= old(s)@ + dec_digits(n as nat));
        }
    }
}

/// The decimal rendering of `n` as a fresh string.
pub fn decimal_string(n: u32) -> (s: String)
    ensures
        s@ == dec_digits(n as nat),
{
    let mut s = String::new();
    push_decimal(&mut s, n);
    proof {
        assert(s@ =~= dec_digits(n as nat));
    }
    s
}

/// Append the decimal rendering of the signed value `n` to `s`.
pub fn push_decimal_signed(s: &mut String, n: i32)
    ensures
        final(s)@ == old(s)@ + dec_digits_signed(n as int),
{
    if n < 0 {
        proof {
            reveal_strlit("-");
        }
        s.append("-");
        let magnitude: u32 = ((-(n as i64)) as u32);
        push_decimal(s, magnitude);
        proof {
            assert(final(s)@ =~= old(s)@ + dec_digits_signed(n as int));
        }
    } else {
        push_decimal(s, n as u32);
    }
}

/// The ASCII characters of `s` as bytes, code point for code point.
pub open spec fn ascii_bytes_of(s: Seq<char>) -> Seq<u8> {
    s.map_values(|c: char| c as u8)
}

/// Rendering and reading are inverse: the decimal rendering of `n` is all
/// digits, and its value reads back as exactly `n`.
pub proof fn lemma_decimal_round_trip(n: nat)
    ensures
        dec_digits(n).len() > 0,
        all_digits(ascii_bytes_of(dec_digits(n))),
        dec_value(ascii_bytes_of(dec_digits(n))) == n,
    decreases n,
{
    if n < 10 {
        assert(digit_char(n as int) as u8 == 48 + n);
        let b = ascii_bytes_of(dec_digits(n));
        assert(b =~= seq![(48 + n) as u8]);
        assert(b.drop_last() =~= Seq::<u8>::empty());
        assert(dec_value(b.drop_last()) == 0);
        assert(b.last() == (48 + n) as u8);
        assert(dec_value(b) == 10 * dec_value(b.drop_last()) + (b.last() - 48));
        assert(dec_value(b) == n);
    } else {
        lemma_decimal_round_trip(n / 10);
        let pre = ascii_bytes_of(dec_digits(n / 10));
        let full = ascii_bytes_of(dec_digits(n));
        let last = (48 + n % 10) as u8;
        assert(digit_char((n % 10) as int) as u8 == last);
        assert(full =~= pre + seq![last]);
        assert(full.drop_last() =~= pre);
        assert(all_digits(full)) by {
            assert(forall|i: int| 0 <= i < pre.len() ==> #[trigger] full[i] == pre[i]);
        }
        assert(dec_value(full) == 10 * dec_value(pre) + (n % 10));
    }
}

} // verus!
