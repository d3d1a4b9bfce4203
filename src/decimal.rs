//! Decimal integers: reading them from text and writing them as ASCII bytes.

use vstd::prelude::*;
use vstd::string::*;

verus! {

/// An ASCII decimal digit.
pub open spec fn is_digit(c: char) -> bool {
    '0' <= c && c <= '9'
}

pub open spec fn digit_value(c: char) -> nat {
    (c as u32 - '0' as u32) as nat
}

pub open spec fn all_digits(s: Seq<char>) -> bool {
    forall|i: int| 0 <= i < s.len() ==> is_digit(#[trigger] s[i])
}

/// The number that a string of decimal digits writes, most significant first.
pub open spec fn digits_value(s: Seq<char>) -> nat
    decreases s.len(),
{
    if s.len() == 0 {
        0
    } else {
        digits_value(s.drop_last()) * 10 + digit_value(s.last())
    }
}

/// The value of `s` when it is one or more digits whose value is at most `bound`.
pub open spec fn bounded_decimal(s: Seq<char>, bound: nat) -> Option<nat> {
    if s.len() > 0 && all_digits(s) && digits_value(s) <= bound {
        Some(digits_value(s))
    } else {
        None
    }
}

/// A 32-bit signed integer in decimal: an optional `+` or `-`, then digits.
pub open spec fn parse_i32_spec(s: Seq<char>) -> Option<i32> {
    if s.len() > 0 && s[0] == '-' {
        match bounded_decimal(s.drop_first(), 2147483648) {
            Some(v) => Some((-(v as int)) as i32),
            None => None,
        }
    } else {
        let digits = if s.len() > 0 && s[0] == '+' { s.drop_first() } else { s };
        match bounded_decimal(digits, 2147483647) {
            Some(v) => Some(v as i32),
            None => None,
        }
    }
}

/// A 64-bit unsigned integer in decimal: an optional `+`, then digits.
pub open spec fn parse_u64_spec(s: Seq<char>) -> Option<u64> {
    let digits = if s.len() > 0 && s[0] == '+' { s.drop_first() } else { s };
    match bounded_decimal(digits, 0xffff_ffff_ffff_ffff) {
        Some(v) => Some(v as u64),
        None => None,
    }
}

/// The ASCII decimal form of `n`, without sign or leading zeros.
pub open spec fn decimal_bytes(n: nat) -> Seq<u8>
    decreases n,
{
    if n < 10 {
        seq![(48 + n) as u8]
    } else {
        decimal_bytes(n / 10) + seq![(48 + n % 10) as u8]
    }
}

proof fn lemma_prefix_value_le(s: Seq<char>, k: int)
    requires
        0 <= k <= s.len(),
    ensures
        digits_value(s.subrange(0, k)) <= digits_value(s),
    decreases s.len() - k,
{
    if k < s.len() {
        lemma_prefix_value_le(s, k + 1);
        assert(s.subrange(0, k + 1).drop_last() =~= s.subrange(0, k));
    } else {
        assert(s.subrange(0, k) =~= s);
    }
}

/// Reads the characters of `s` from `start` on as decimal digits whose value is
/// at most `bound`.
fn bounded_digits(s: &str, start: usize, bound: u64) -> (r: Option<u64>)
    requires
        start <= s@.len(),
    ensures
        r is Some <==> bounded_decimal(s@.subrange(start as int, s@.len() as int), bound as nat) is Some,
        r is Some ==> r->0 as nat == bounded_decimal(
            s@.subrange(start as int, s@.len() as int),
            bound as nat,
        )->0,
{
    let len = s.unicode_len();
    let ghost t = s@.subrange(start as int, s@.len() as int);
    if start >= len {
        return None;
    }
    let mut acc: u128 = 0;
    let mut i: usize = start;
    while i < len
        invariant
            start <= i <= len,
            len == s@.len(),
            t == s@.subrange(start as int, len as int),
            acc as nat == digits_value(t.subrange(0, i - start)),
            all_digits(t.subrange(0, i - start)),
            acc <= bound,
        decreases len - i,
    {
        let c = s.get_char(i);
        if c < '0' || c > '9' {
            assert(!is_digit(t[i - start]));
            return None;
        }
        let d = (c as u32 - '0' as u32) as u128;
        proof {
            assert(t.subrange(0, i + 1 - start).drop_last() =~= t.subrange(0, i - start));
        }
        acc = acc * 10 + d;
        if acc > bound as u128 {
            proof {
                lemma_prefix_value_le(t, i + 1 - start);
            }
            return None;
        }
        i = i + 1;
        assert(all_digits(t.subrange(0, i - start))) by {
            assert forall|j: int| 0 <= j < i - start implies is_digit(
                #[trigger] t.subrange(0, i - start)[j],
            ) by {
                if j < i - 1 - start {
                    assert(t.subrange(0, i - start)[j] == t.subrange(0, i - 1 - start)[j]);
                }
            }
        }
    }
    assert(t.subrange(0, len - start) =~= t);
    Some(acc as u64)
}

/// Reads a 32-bit signed integer written in decimal, as `str::parse::<i32>` does.
pub fn parse_i32(s: &str) -> (r: Option<i32>)
    ensures
        r == parse_i32_spec(s@),
{
    let len = s.unicode_len();
    if len > 0 && s.get_char(0) == '-' {
        assert(s@.subrange(1, s@.len() as int) =~= s@.drop_first());
        match bounded_digits(s, 1, 2147483648) {
            Some(v) => Some((0 - v as i64) as i32),
            None => None,
        }
    } else {
        let start: usize = if len > 0 && s.get_char(0) == '+' { 1 } else { 0 };
        assert(s@.subrange(1, s@.len() as int) =~= s@.drop_first());
        assert(s@.subrange(0, s@.len() as int) =~= s@);
        match bounded_digits(s, start, 2147483647) {
            Some(v) => Some(v as i32),
            None => None,
        }
    }
}

/// Reads a 64-bit unsigned integer written in decimal, as `str::parse::<u64>` does.
pub fn parse_u64(s: &str) -> (r: Option<u64>)
    ensures
        r == parse_u64_spec(s@),
{
    let len = s.unicode_len();
    let start: usize = if len > 0 && s.get_char(0) == '+' { 1 } else { 0 };
    assert(s@.subrange(1, s@.len() as int) =~= s@.drop_first());
    assert(s@.subrange(0, s@.len() as int) =~= s@);
    bounded_digits(s, start, 0xffff_ffff_ffff_ffff)
}

/// Appends the ASCII decimal form of `n` to `out`.
pub fn push_decimal(n: u128, out: &mut Vec<u8>)
    ensures
        final(out)@ == old(out)@ + decimal_bytes(n as nat),
    decreases n,
{
    if n >= 10 {
        push_decimal(n / 10, out);
    }
    out.push((48 + n % 10) as u8);
    assert(out@ =~= old(out)@ + decimal_bytes(n as nat));
}

/// The ASCII decimal form of `n`.
pub fn decimal(n: u128) -> (r: Vec<u8>)
    ensures
        r@ == decimal_bytes(n as nat),
{
    let mut out: Vec<u8> = Vec::new();
    push_decimal(n, &mut out);
    assert(out@ =~= decimal_bytes(n as nat));
    out
}

} // verus!
