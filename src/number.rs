//! Reading decimal numbers out of captured text.
use vstd::prelude::*;

verus! {

pub open spec fn is_digit(c: char) -> bool {
    '0' <= c && c <= '9'
}

/// Every character is an ASCII decimal digit.
pub open spec fn all_digits(s: Seq<char>) -> bool {
    forall|i: int| 0 <= i < s.len() ==> is_digit(#[trigger] s[i])
}

/// The value of a string of decimal digits, most significant first.
pub open spec fn digits_value(s: Seq<char>) -> nat
    decreases s.len(),
{
    if s.len() == 0 {
        0
    } else {
        digits_value(s.drop_last()) * 10 + ((s.last() as u32 - '0' as u32) as nat)
    }
}

/// What `parse_u32` returns: the value of a non-empty run of decimal digits
/// that fits in 32 bits, or nothing.
pub open spec fn u32_of(s: Seq<char>) -> Option<u32> {
    if s.len() > 0 && all_digits(s) && digits_value(s) <= u32::MAX {
        Some(digits_value(s) as u32)
    } else {
        None
    }
}

/// A decimal number with a fractional part: digits, one point, digits.
pub open spec fn is_decimal(s: Seq<char>) -> bool {
    exists|k: int|
        0 < k < s.len() - 1 && s[k] == '.' && all_digits(#[trigger] s.take(k)) && all_digits(
            s.skip(k + 1),
        )
}

/// Reads a run of decimal digits as an unsigned 32-bit number.
pub fn parse_u32(s: &str) -> (r: Option<u32>)
    ensures
        r == u32_of(s@),
{
    let n = s.unicode_len();
    if n == 0 {
        return None;
    }
    let mut acc: u64 = 0;
    let mut too_big = false;
    let mut i: usize = 0;
    while i < n
        invariant
            n == s@.len(),
            i <= n,
            all_digits(s@.take(i as int)),
            !too_big ==> acc == digits_value(s@.take(i as int)) && acc <= u32::MAX,
            too_big ==> digits_value(s@.take(i as int)) > u32::MAX,
        decreases n - i,
    {
        let c = s.get_char(i);
        if !('0' <= c && c <= '9') {
            assert(!all_digits(s@));
            return None;
        }
        let ghost prev = s@.take(i as int);
        assert(s@.take(i + 1).drop_last() =~= prev);
        let d = (c as u32 - '0' as u32) as u64;
        if !too_big {
            acc = acc * 10 + d;
            if acc > u32::MAX as u64 {
                too_big = true;
            }
        } else {
            assert(digits_value(s@.take(i + 1)) >= digits_value(prev)) by (nonlinear_arith)
                requires
                    digits_value(s@.take(i + 1)) == digits_value(prev) * 10 + d,
            ;
        }
        assert(all_digits(s@.take(i + 1)));
        i = i + 1;
    }
    assert(s@.take(n as int) =~= s@);
    if too_big {
        None
    } else {
        Some(acc as u32)
    }
}

/// Whether `s` is a decimal number with a fractional part, in ASCII digits.
pub fn check_decimal(s: &str) -> (r: bool)
    ensures
        r == is_decimal(s@),
{
    let n = s.unicode_len();
    let mut k: usize = 0;
    while k < n && s.get_char(k) != '.'
        invariant
            n == s@.len(),
            k <= n,
            forall|j: int| 0 <= j < k ==> s@[j] != '.',
        decreases n - k,
    {
        k = k + 1;
    }
    if k == 0 || k >= n || n - k < 2 {
        proof {
            assert forall|j: int| 0 < j < s@.len() - 1 && s@[j] == '.' implies !all_digits(
                s@.take(j),
            ) by {
                if k < n {
                    assert(s@.take(j)[k as int] == '.');
                }
            }
        }
        return false;
    }
    let mut i: usize = 0;
    while i < n
        invariant
            n == s@.len(),
            0 < k < n,
            s@[k as int] == '.',
            forall|j: int| 0 <= j < k ==> s@[j] != '.',
            i <= n,
            forall|j: int| 0 <= j < i && j != k ==> is_digit(#[trigger] s@[j]),
        decreases n - i,
    {
        let c = s.get_char(i);
        if i != k && !('0' <= c && c <= '9') {
            proof {
                assert forall|m: int| 0 < m < s@.len() - 1 && s@[m] == '.' implies !(all_digits(
                    #[trigger] s@.take(m),
                ) && all_digits(s@.skip(m + 1))) by {
                    if m == k {
                        if (i as int) < k {
                            assert(s@.take(m)[i as int] == c);
                        } else {
                            assert(s@.skip(m + 1)[i - m - 1] == c);
                        }
                    } else {
                        assert(m > k);
                        assert(s@.take(m)[k as int] == '.');
                    }
                }
            }
            return false;
        }
        i = i + 1;
    }
    assert(all_digits(s@.take(k as int)));
    assert(all_digits(s@.skip(k + 1)));
    true
}

} // verus!
