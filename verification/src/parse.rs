//! Byte-level scanning of mixer tool output: locating landmark bytes,
//! whitespace handling, and reading signed decimal integers.
//!
//! Tool output is handled as raw bytes; the landmarks and digits the parsers
//! look for are all ASCII, and anything else simply fails to match.

use vstd::prelude::*;

verus! {

/// ASCII `%`.
pub const PERCENT: u8 = 37;

/// ASCII `[`.
pub const OPEN_BRACKET: u8 = 91;

/// ASCII decimal digit.
pub open spec fn is_ascii_digit(b: u8) -> bool {
    48 <= b <= 57
}

/// ASCII whitespace: space, tab, line feed, vertical tab, form feed,
/// carriage return.
pub open spec fn is_ascii_ws(b: u8) -> bool {
    b == 32 || b == 9 || b == 10 || b == 11 || b == 12 || b == 13
}

/// Every byte of `s` is an ASCII decimal digit.
pub open spec fn all_digits(s: Seq<u8>) -> bool {
    forall|i: int| 0 <= i < s.len() ==> is_ascii_digit(#[trigger] s[i])
}

/// The index of the first occurrence of `b` in `s` at or after `from`.
pub open spec fn spec_find_from(s: Seq<u8>, b: u8, from: nat) -> Option<int>
    decreases s.len() - from,
{
    if from >= s.len() {
        None
    } else if s[from as int] == b {
        Some(from as int)
    } else {
        spec_find_from(s, b, from + 1)
    }
}

/// The index of the last ASCII whitespace byte strictly before `end`.
pub open spec fn spec_rfind_ws(s: Seq<u8>, end: int) -> Option<int>
    decreases end,
{
    if end <= 0 || end > s.len() {
        None
    } else if is_ascii_ws(s[end - 1]) {
        Some(end - 1)
    } else {
        spec_rfind_ws(s, end - 1)
    }
}

/// The value of a string of decimal digits, most significant first.
pub open spec fn dec_value(s: Seq<u8>) -> int
    decreases s.len(),
{
    if s.len() == 0 {
        0
    } else {
        10 * dec_value(s.drop_last()) + (s.last() - 48)
    }
}

/// What parsing `s` as an `i32` yields: an optional ASCII sign, then one or
/// more decimal digits, and the value must fit in an `i32`; anything else is
/// no parse.
pub open spec fn spec_parse_i32(s: Seq<u8>) -> Option<int> {
    if s.len() > 0 && (s[0] == 43 || s[0] == 45) {
        let mag = s.subrange(1, s.len() as int);
        if mag.len() > 0 && all_digits(mag) {
            let v = if s[0] == 45 {
                -dec_value(mag)
            } else {
                dec_value(mag)
            };
            if i32::MIN <= v <= i32::MAX {
                Some(v)
            } else {
                None
            }
        } else {
            None
        }
    } else if s.len() > 0 && all_digits(s) {
        if dec_value(s) <= i32::MAX {
            Some(dec_value(s))
        } else {
            None
        }
    } else {
        None
    }
}

/// `s` with leading ASCII whitespace removed.
pub open spec fn spec_trim_start(s: Seq<u8>) -> Seq<u8>
    decreases s.len(),
{
    if s.len() > 0 && is_ascii_ws(s[0]) {
        spec_trim_start(s.drop_first())
    } else {
        s
    }
}

/// `s` with trailing ASCII whitespace removed.
pub open spec fn spec_trim_end(s: Seq<u8>) -> Seq<u8>
    decreases s.len(),
{
    if s.len() > 0 && is_ascii_ws(s.last()) {
        spec_trim_end(s.drop_last())
    } else {
        s
    }
}

/// `s` with ASCII whitespace removed from both ends.
pub open spec fn spec_trim(s: Seq<u8>) -> Seq<u8> {
    spec_trim_end(spec_trim_start(s))
}

/// A digit string's value is never negative.
pub proof fn lemma_dec_value_nonneg(s: Seq<u8>)
    requires
        all_digits(s),
    ensures
        dec_value(s) >= 0,
    decreases s.len(),
{
    if s.len() > 0 {
        assert(all_digits(s.drop_last())) by {
            assert(forall|i: int|
                0 <= i < s.len() - 1 ==> #[trigger] s.drop_last()[i] == s[i]);
        }
        lemma_dec_value_nonneg(s.drop_last());
    }
}

/// Extending a digit string can only grow its value.
pub proof fn lemma_dec_value_prefix_le(s: Seq<u8>, i: int)
    requires
        all_digits(s),
        0 <= i <= s.len(),
    ensures
        dec_value(s.take(i)) <= dec_value(s),
    decreases s.len() - i,
{
    if i < s.len() {
        let t = s.take(i + 1);
        assert(t.drop_last() =~= s.take(i));
        assert(all_digits(t)) by {
            assert(forall|j: int| 0 <= j < t.len() ==> #[trigger] t[j] == s[j]);
        }
        lemma_dec_value_nonneg(t.drop_last());
        assert(dec_value(t) == 10 * dec_value(s.take(i)) + (s[i] - 48));
        assert(dec_value(s.take(i)) <= dec_value(t));
        lemma_dec_value_prefix_le(s, i + 1);
    } else {
        assert(s.take(i) =~= s);
    }
}

/// Whether `b` is ASCII whitespace, as an executable test.
pub fn is_ws_byte(b: u8) -> (r: bool)
    ensures
        r == is_ascii_ws(b),
{
    b == 32 || b == 9 || b == 10 || b == 11 || b == 12 || b == 13
}

/// Find the first occurrence of `b` in `s` at or after `from`.
pub fn find_from(s: &[u8], b: u8, from: usize) -> (r: Option<usize>)
    requires
        from <= s@.len(),
    ensures
        match r {
            Some(i) => from <= i < s@.len() && s@[i as int] == b && Some(i as int)
                == spec_find_from(s@, b, from as nat),
            None => spec_find_from(s@, b, from as nat) is None,
        },
{
    let mut i: usize = from;
    while i < s.len()
        invariant
            from <= i <= s@.len(),
            spec_find_from(s@, b, from as nat) == spec_find_from(s@, b, i as nat),
        decreases s@.len() - i,
    {
        if s[i] == b {
            return Some(i);
        }
        i = i + 1;
    }
    None
}

/// Find the last ASCII whitespace byte strictly before `end`.
pub fn rfind_ws(s: &[u8], end: usize) -> (r: Option<usize>)
    requires
        end <= s@.len(),
    ensures
        match r {
            Some(i) => i < end && Some(i as int) == spec_rfind_ws(s@, end as int),
            None => spec_rfind_ws(s@, end as int) is None,
        },
{
    let mut j: usize = end;
    while j > 0
        invariant
            j <= end <= s@.len(),
            spec_rfind_ws(s@, end as int) == spec_rfind_ws(s@, j as int),
        decreases j,
    {
        let b: u8 = s[j - 1];
        if is_ws_byte(b) {
            return Some(j - 1);
        }
        j = j - 1;
    }
    None
}

/// Read the value of the digit string `s[start .. s.len()]`, capped just
/// above `i32::MAX` so that both signs of a parse can be bounds-checked.
fn digits_value(s: &[u8], start: usize) -> (r: Option<i64>)
    requires
        start <= s@.len(),
    ensures
        ({
            let mag = s@.subrange(start as int, s@.len() as int);
            match r {
                Some(v) => mag.len() > 0 && all_digits(mag) && v == dec_value(mag) && 0 <= v
                    <= 2147483648i64,
                None => !(mag.len() > 0 && all_digits(mag) && dec_value(mag) <= 2147483648),
            }
        }),
{
    let ghost mag = s@.subrange(start as int, s@.len() as int);
    if start >= s.len() {
        return None;
    }
    let mut acc: i64 = 0;
    let mut i: usize = start;
    while i < s.len()
        invariant
            start <= i <= s@.len(),
            mag == s@.subrange(start as int, s@.len() as int),
            all_digits(s@.subrange(start as int, i as int)),
            acc == dec_value(s@.subrange(start as int, i as int)),
            0 <= acc <= 2147483648i64,
        decreases s@.len() - i,
    {
        let b: u8 = s[i];
        let ghost pre = s@.subrange(start as int, i as int);
        let ghost cur = s@.subrange(start as int, i as int + 1);
        proof {
            assert(cur.drop_last() =~= pre);
            assert(cur.last() == s@[i as int]);
        }
        if !(48 <= b && b <= 57) {
            proof {
                assert(!is_ascii_digit(mag[i as int - start as int]));
            }
            return None;
        }
        let next: i64 = acc * 10 + ((b - 48) as i64);
        proof {
            assert(all_digits(cur)) by {
                assert(forall|k: int|
                    0 <= k < cur.len() - 1 ==> #[trigger] cur[k] == pre[k]);
            }
            assert(dec_value(cur) == 10 * dec_value(pre) + (s@[i as int] - 48));
        }
        if next > 2147483648 {
            proof {
                if all_digits(mag) {
                    assert(cur =~= mag.take(i as int + 1 - start as int));
                    lemma_dec_value_prefix_le(mag, i as int + 1 - start as int);
                }
            }
            return None;
        }
        acc = next;
        i = i + 1;
    }
    proof {
        assert(s@.subrange(start as int, i as int) =~= mag);
    }
    Some(acc)
}

/// Parse `s` as an `i32`: an optional ASCII sign, then decimal digits.
/// Succeeds exactly when [`spec_parse_i32`] does, with that value.
pub fn parse_i32(s: &[u8]) -> (r: Option<i32>)
    ensures
        match r {
            Some(v) => spec_parse_i32(s@) == Some(v as int),
            None => spec_parse_i32(s@) is None,
        },
{
    if s.len() == 0 {
        return None;
    }
    let first: u8 = s[0];
    if first == 43 || first == 45 {
        let ghost mag = s@.subrange(1, s@.len() as int);
        match digits_value(s, 1) {
            Some(v) => {
                if first == 45 {
                    proof {
                        lemma_dec_value_nonneg(mag);
                    }
                    Some((-v) as i32)
                } else {
                    if v <= 2147483647 {
                        Some(v as i32)
                    } else {
                        None
                    }
                }
            },
            None => None,
        }
    } else {
        let ghost whole = s@;
        match digits_value(s, 0) {
            Some(v) => {
                proof {
                    assert(s@.subrange(0, s@.len() as int) =~= whole);
                }
                if v <= 2147483647 {
                    Some(v as i32)
                } else {
                    None
                }
            },
            None => {
                proof {
                    assert(s@.subrange(0, s@.len() as int) =~= whole);
                }
                None
            },
        }
    }
}

/// The bounds of `s` with ASCII whitespace trimmed from both ends.
pub fn trim_bounds(s: &[u8]) -> (r: (usize, usize))
    ensures
        r.0 <= r.1 <= s@.len(),
        s@.subrange(r.0 as int, r.1 as int) == spec_trim(s@),
{
    let mut lo: usize = 0;
    proof {
        assert(s@.subrange(0, s@.len() as int) =~= s@);
    }
    while lo < s.len() && is_ws_byte(s[lo])
        invariant
            lo <= s@.len(),
            spec_trim_start(s@) == spec_trim_start(s@.subrange(lo as int, s@.len() as int)),
        decreases s@.len() - lo,
    {
        proof {
            let cur = s@.subrange(lo as int, s@.len() as int);
            assert(cur.drop_first() =~= s@.subrange(lo as int + 1, s@.len() as int));
        }
        lo = lo + 1;
    }
    let ghost start_trimmed = s@.subrange(lo as int, s@.len() as int);
    proof {
        if lo < s@.len() {
            assert(!is_ascii_ws(start_trimmed[0]));
        }
        assert(spec_trim_start(s@) == start_trimmed);
    }
    let mut hi: usize = s.len();
    while hi > lo && is_ws_byte(s[hi - 1])
        invariant
            lo <= hi <= s@.len(),
            spec_trim_start(s@) == s@.subrange(lo as int, s@.len() as int),
            spec_trim_end(spec_trim_start(s@)) == spec_trim_end(
                s@.subrange(lo as int, hi as int),
            ),
        decreases hi,
    {
        proof {
            let cur = s@.subrange(lo as int, hi as int);
            assert(cur.drop_last() =~= s@.subrange(lo as int, hi as int - 1));
        }
        hi = hi - 1;
    }
    proof {
        let cur = s@.subrange(lo as int, hi as int);
        if hi > lo {
            assert(!is_ascii_ws(cur.last()));
        }
        assert(spec_trim(s@) == cur);
    }
    (lo, hi)
}

} // verus!
