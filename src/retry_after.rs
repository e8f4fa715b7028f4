//! Reading the `Retry-After` response header as a count of seconds.

use vstd::prelude::*;

verus! {

/// Name of the one response header the executor reads.
pub const RETRY_AFTER_HEADER: &'static str = "Retry-After";

/// ASCII `0` to `9`.
pub open spec fn is_digit(b: u8) -> bool {
    48u8 <= b <= 57u8
}

pub open spec fn all_digits(s: Seq<u8>) -> bool {
    forall|i: int| 0 <= i < s.len() ==> is_digit(#[trigger] s[i])
}

/// The base-10 value of a run of ASCII digits.
pub open spec fn decimal_value(s: Seq<u8>) -> nat
    decreases s.len(),
{
    if s.len() == 0 {
        0
    } else {
        decimal_value(s.drop_last()) * 10 + (s.last() - 48u8) as nat
    }
}

/// The digits of an unsigned number, after an optional leading `+` (43).
pub open spec fn unsigned_digits(s: Seq<u8>) -> Seq<u8> {
    if s.len() > 0 && s[0] == 43u8 {
        s.drop_first()
    } else {
        s
    }
}

/// The seconds a header value announces: one or more decimal digits, after
/// an optional `+`, whose value fits in `u64`. Anything else announces
/// nothing.
pub open spec fn retry_after_seconds(value: Seq<u8>) -> Option<u64> {
    let d = unsigned_digits(value);
    if d.len() > 0 && all_digits(d) && decimal_value(d) <= u64::MAX {
        Some(decimal_value(d) as u64)
    } else {
        None
    }
}

/// A longer run of digits is worth at least as much as its prefix.
proof fn lemma_prefix_value_le(s: Seq<u8>, j: int)
    requires
        all_digits(s),
        0 <= j <= s.len(),
    ensures
        decimal_value(s.subrange(0, j)) <= decimal_value(s),
    decreases s.len() - j,
{
    if j < s.len() {
        lemma_prefix_value_le(s, j + 1);
        assert(s.subrange(0, j + 1).drop_last() =~= s.subrange(0, j));
        assert(is_digit(s[j]));
    } else {
        assert(s.subrange(0, j) =~= s);
    }
}

/// Parses a `Retry-After` header value as a number of seconds.
pub fn parse_retry_after(value: &[u8]) -> (r: Option<u64>)
    ensures
        r == retry_after_seconds(value@),
{
    let len = value.len();
    let start: usize = if len > 0 && value[0] == 43u8 {
        1
    } else {
        0
    };
    let ghost digits = unsigned_digits(value@);
    assert(digits =~= value@.subrange(start as int, len as int));
    if start == len {
        return None;
    }
    let mut acc: u64 = 0;
    let mut i: usize = start;
    while i < len
        invariant
            len == value@.len(),
            start <= i <= len,
            start < len,
            digits == unsigned_digits(value@),
            digits =~= value@.subrange(start as int, len as int),
            all_digits(digits.subrange(0, i - start)),
            acc as nat == decimal_value(digits.subrange(0, i - start)),
        decreases len - i,
    {
        let b = value[i];
        let ghost k = i - start;
        assert(digits[k] == b);
        if b < 48u8 || b > 57u8 {
            assert(!is_digit(digits[k]));
            return None;
        }
        assert(digits.subrange(0, k + 1).drop_last() =~= digits.subrange(0, k));
        assert(all_digits(digits.subrange(0, k + 1))) by {
            assert forall|j: int| 0 <= j < k + 1 implies is_digit(
                #[trigger] digits.subrange(0, k + 1)[j],
            ) by {
                if j < k {
                    assert(digits.subrange(0, k + 1)[j] == digits.subrange(0, k)[j]);
                }
            }
        }
        let digit = (b - 48u8) as u64;
        assert(decimal_value(digits.subrange(0, k + 1)) == acc * 10 + digit);
        let next = match acc.checked_mul(10) {
            Some(t) => t.checked_add(digit),
            None => None,
        };
        match next {
            None => {
                proof {
                    if all_digits(digits) {
                        lemma_prefix_value_le(digits, k + 1);
                    }
                }
                return None;
            },
            Some(n) => {
                acc = n;
            },
        }
        i = i + 1;
    }
    assert(digits.subrange(0, len - start) =~= digits);
    Some(acc)
}

} // verus!
