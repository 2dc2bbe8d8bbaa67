//! Reading the server's configuration values. The values come from the
//! environment; this module decides what a value means.
use vstd::prelude::*;
use crate::text::{all_decimal_digits, digits_value, lemma_digits_value_prefix};

verus! {

/// The digits of a number as `u16::from_str` reads them: an optional `+`
/// sign, then the digits.
pub open spec fn unsigned_digits(s: Seq<char>) -> Seq<char> {
    if s.len() > 0 && s[0] == '+' {
        s.drop_first()
    } else {
        s
    }
}

/// What `u16::from_str` makes of `s`: the number when `s` is an optional `+`
/// followed by at least one decimal digit and the number fits in a `u16`.
pub open spec fn spec_parse_u16(s: Seq<char>) -> Option<u16> {
    let digits = unsigned_digits(s);
    if digits.len() > 0 && all_decimal_digits(digits) && digits_value(digits) <= u16::MAX {
        Some(digits_value(digits) as u16)
    } else {
        None
    }
}

/// The port number in `text`, read as `u16::from_str` reads it; `None` when
/// `text` is not one.
pub fn parse_port(text: &str) -> (r: Option<u16>)
    ensures
        r == spec_parse_u16(text@),
{
    let n = text.unicode_len();
    let mut start: usize = 0;
    if n > 0 && text.get_char(0) == '+' {
        start = 1;
    }
    let ghost digits = unsigned_digits(text@);
    assert(digits =~= text@.subrange(start as int, n as int));
    if start == n {
        return None;
    }
    let mut value: u32 = 0;
    let mut i: usize = start;
    while i < n
        invariant
            n == text@.len(),
            start <= i <= n,
            digits == text@.subrange(start as int, n as int),
            digits == unsigned_digits(text@),
            all_decimal_digits(digits.subrange(0, i - start)),
            value == digits_value(digits.subrange(0, i - start)),
            value <= u16::MAX,
        decreases n - i,
    {
        let c = text.get_char(i);
        if c < '0' || c > '9' {
            assert(digits[i - start] == c);
            assert(!all_decimal_digits(digits));
            return None;
        }
        let d: u32 = (c as u32) - ('0' as u32);
        let next: u32 = value * 10 + d;
        proof {
            let p = digits.subrange(0, i - start + 1);
            assert(p.drop_last() =~= digits.subrange(0, i - start));
            assert(p.last() == c);
            assert(all_decimal_digits(p));
            assert(digits_value(p) == 10 * digits_value(p.drop_last()) + ((p.last() as int) - ('0' as int)));
            assert(d == (c as int) - ('0' as int));
            assert(next == digits_value(p));
        }
        if next > 65535 {
            proof {
                let k = i - start + 1;
                if all_decimal_digits(digits) {
                    lemma_digits_value_prefix(digits, k);
                    assert(digits_value(digits) > u16::MAX);
                }
            }
            return None;
        }
        value = next;
        i = i + 1;
    }
    assert(digits.subrange(0, n - start) =~= digits);
    Some(value as u16)
}

} // verus!
