//! Parsing of sequence numbers: unsigned decimal numerals, exactly as the
//! standard `u64` parser accepts them (digits with an optional leading plus
//! sign, value within range).

use vstd::prelude::*;

verus! {

/// An ASCII decimal digit.
pub open spec fn is_digit(c: char) -> bool {
    '0' <= c && c <= '9'
}

/// The value of one digit.
pub open spec fn digit_val(c: char) -> int {
    c as int - '0' as int
}

/// Every character is a digit.
pub open spec fn all_digits(s: Seq<char>) -> bool {
    forall|i: int| 0 <= i < s.len() ==> is_digit(#[trigger] s[i])
}

/// The value of a digit string, most significant first.
pub open spec fn digits_val(s: Seq<char>) -> int
    decreases s.len(),
{
    if s.len() == 0 {
        0
    } else {
        digits_val(s.drop_last()) * 10 + digit_val(s.last())
    }
}

/// The digits of a numeral, with an optional leading plus sign stripped.
pub open spec fn numeral_digits(s: Seq<char>) -> Seq<char> {
    if s.len() > 0 && s[0] == '+' {
        s.skip(1)
    } else {
        s
    }
}

/// A valid unsigned decimal numeral whose value fits in a `u64`.
pub open spec fn valid_u64_numeral(s: Seq<char>) -> bool {
    &&& numeral_digits(s).len() > 0
    &&& all_digits(numeral_digits(s))
    &&& digits_val(numeral_digits(s)) <= u64::MAX
}

/// The value of a numeral.
pub open spec fn numeral_val(s: Seq<char>) -> int {
    digits_val(numeral_digits(s))
}

/// The value of a digit string never shrinks as digits are appended.
proof fn lemma_digits_val_prefix(s: Seq<char>, i: int)
    requires
        0 <= i <= s.len(),
        all_digits(s),
    ensures
        digits_val(s.take(i)) <= digits_val(s),
        digits_val(s) >= 0,
    decreases s.len() - i,
{
    if i == s.len() {
        assert(s.take(i) =~= s);
        lemma_digits_val_nonneg(s);
    } else {
        lemma_digits_val_prefix(s, i + 1);
        lemma_digits_val_nonneg(s.take(i));
        assert(s.take(i + 1).drop_last() =~= s.take(i));
        assert(s.take(i + 1).last() == s[i]);
        assert(digits_val(s.take(i)) <= digits_val(s.take(i)) * 10 + digit_val(s[i]))
            by (nonlinear_arith)
            requires
                digits_val(s.take(i)) >= 0,
                digit_val(s[i]) >= 0,
        ;
    }
}

/// The value of a digit string is never negative.
proof fn lemma_digits_val_nonneg(s: Seq<char>)
    requires
        all_digits(s),
    ensures
        digits_val(s) >= 0,
    decreases s.len(),
{
    if s.len() > 0 {
        assert(all_digits(s.drop_last()));
        lemma_digits_val_nonneg(s.drop_last());
    }
}

/// Parses an unsigned decimal numeral; `None` exactly on strings that are not
/// valid in-range numerals.
pub fn parse_u64(s: &str) -> (r: Option<u64>)
    ensures
        r is Some <==> valid_u64_numeral(s@),
        r matches Some(v) ==> v == numeral_val(s@),
{
    let len = s.unicode_len();
    let mut start: usize = 0;
    if len > 0 && s.get_char(0) == '+' {
        start = 1;
    }
    proof {
        assert(numeral_digits(s@) =~= s@.subrange(start as int, len as int));
    }
    if start >= len {
        return None;
    }
    let ghost digits = s@.subrange(start as int, len as int);
    let mut i: usize = start;
    let mut acc: u64 = 0;
    while i < len
        invariant
            start <= i <= len,
            len == s@.len(),
            digits == s@.subrange(start as int, len as int),
            digits == numeral_digits(s@),
            start < len,
            all_digits(digits.take(i - start)),
            acc == digits_val(digits.take(i - start)),
        decreases len - i,
    {
        let c = s.get_char(i);
        if !(c >= '0' && c <= '9') {
            proof {
                assert(0 <= i - start < digits.len() && digits[i - start] == c);
                assert(!is_digit(digits[i - start]));
                assert(!all_digits(digits));
            }
            return None;
        }
        let d: u64 = (c as u32 - '0' as u32) as u64;
        let scaled = match acc.checked_mul(10) {
            Some(x) => x,
            None => {
                proof {
                    overflow_means_invalid(digits, i - start, d as int);
                }
                return None;
            },
        };
        let next = match scaled.checked_add(d) {
            Some(x) => x,
            None => {
                proof {
                    overflow_means_invalid(digits, i - start, d as int);
                }
                return None;
            },
        };
        proof {
            assert(digits.take(i - start + 1).drop_last() =~= digits.take(i - start));
            assert(digits.take(i - start + 1).last() == digits[i - start]);
            assert(all_digits(digits.take(i - start + 1)));
        }
        acc = next;
        i = i + 1;
    }
    proof {
        assert(digits.take(len - start) =~= digits);
    }
    Some(acc)
}

/// If one more digit pushes the running value past the `u64` range, the whole
/// string is out of range too.
proof fn overflow_means_invalid(digits: Seq<char>, i: int, d: int)
    requires
        0 <= i < digits.len(),
        all_digits(digits.take(i)),
        is_digit(digits[i]),
        d == digit_val(digits[i]),
        digits_val(digits.take(i)) * 10 + d > u64::MAX,
    ensures
        !(all_digits(digits) && digits_val(digits) <= u64::MAX),
{
    if all_digits(digits) {
        assert(digits.take(i + 1).drop_last() =~= digits.take(i));
        assert(digits.take(i + 1).last() == digits[i]);
        assert(digits_val(digits.take(i + 1)) == digits_val(digits.take(i)) * 10 + d);
        lemma_digits_val_prefix(digits, i + 1);
    }
}

} // verus!
