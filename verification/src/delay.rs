//! Parsing of the delay route's millisecond parameter.
//!
//! The `/delay/{delay}/{filename}` route carries a base-10 unsigned number
//! of milliseconds. The segment is accepted exactly when, after an optional
//! leading `+`, it consists of one or more decimal digits whose value fits
//! in a `u64`; anything else is a client error and the server answers
//! `400 Bad Request`.

use vstd::prelude::*;

verus! {

/// A decimal digit.
pub open spec fn is_digit(c: char) -> bool {
    '0' as u32 <= c as u32 && c as u32 <= '9' as u32
}

/// The numeric value of a decimal digit.
pub open spec fn digit_value(c: char) -> int {
    c as u32 - '0' as u32
}

/// Every character of `s` is a decimal digit.
pub open spec fn all_digits(s: Seq<char>) -> bool {
    forall|i: int| 0 <= i < s.len() ==> is_digit(#[trigger] s[i])
}

/// The base-10 value of a digit string, most significant digit first.
pub open spec fn dec_value(s: Seq<char>) -> int
    decreases s.len(),
{
    if s.len() == 0 {
        0
    } else {
        dec_value(s.drop_last()) * 10 + digit_value(s.last())
    }
}

/// The digits of a delay segment: the segment itself, or what follows a
/// single leading `+` sign.
pub open spec fn digits_part(s: Seq<char>) -> Seq<char> {
    if s.len() > 0 && s[0] == '+' {
        s.skip(1)
    } else {
        s
    }
}

/// A delay segment is valid when its digits part is non-empty, consists of
/// digits only, and denotes a value that fits in a `u64`.
pub open spec fn is_valid_delay(s: Seq<char>) -> bool {
    let d = digits_part(s);
    d.len() > 0 && all_digits(d) && dec_value(d) <= u64::MAX
}

/// A digit string denotes a non-negative value.
proof fn lemma_dec_value_nonneg(s: Seq<char>)
    requires
        all_digits(s),
    ensures
        dec_value(s) >= 0,
    decreases s.len(),
{
    if s.len() > 0 {
        assert(is_digit(s.last()));
        lemma_dec_value_nonneg(s.drop_last());
    }
}

/// Extending a digit string to the right can only grow its value.
proof fn lemma_dec_value_take_le(s: Seq<char>, k: int)
    requires
        all_digits(s),
        0 <= k <= s.len(),
    ensures
        dec_value(s.take(k)) <= dec_value(s),
    decreases s.len() - k,
{
    if k == s.len() {
        assert(s.take(k) =~= s);
    } else {
        assert(s.take(k + 1).drop_last() =~= s.take(k));
        assert(s.take(k + 1).last() == s[k]);
        assert(all_digits(s.take(k))) by {
            assert(forall|i: int|
                0 <= i < k ==> #[trigger] s.take(k)[i] == s[i] && is_digit(s[i]));
        }
        lemma_dec_value_nonneg(s.take(k));
        assert(is_digit(s[k]));
        assert(dec_value(s.take(k + 1)) == dec_value(s.take(k)) * 10 + digit_value(s[k]));
        lemma_dec_value_take_le(s, k + 1);
    }
}

/// Parses the delay segment. Returns the millisecond count exactly when
/// the segment is a valid delay, and nothing otherwise.
pub fn parse_delay(s: &str) -> (r: Option<u64>)
    ensures
        match r {
            Some(v) => is_valid_delay(s@) && v as int == dec_value(digits_part(s@)),
            None => !is_valid_delay(s@),
        },
{
    let n = s.unicode_len();
    let start: usize = if n > 0 && s.get_char(0) == '+' {
        1
    } else {
        0
    };
    proof {
        assert(digits_part(s@) =~= s@.subrange(start as int, n as int));
    }
    if n == start {
        return None;
    }
    let ghost d: Seq<char> = s@.subrange(start as int, n as int);
    let mut acc: u64 = 0;
    let mut i: usize = start;
    while i < n
        invariant
            start <= i <= n,
            n == s@.len(),
            start < n,
            d == s@.subrange(start as int, n as int),
            d == digits_part(s@),
            all_digits(d.take(i - start)),
            acc as int == dec_value(d.take(i - start)),
        decreases n - i,
    {
        let c = s.get_char(i);
        let cu = c as u32;
        if cu < 48 || cu > 57 {
            proof {
                assert(d[i - start] == s@[i as int]);
                assert(!is_digit(d[i - start]));
                assert(!all_digits(d));
            }
            return None;
        }
        let dv: u64 = (cu - 48) as u64;
        proof {
            assert(d.take(i - start + 1).drop_last() =~= d.take(i - start));
            assert(d.take(i - start + 1).last() == d[i - start]);
            assert(d[i - start] == s@[i as int]);
            assert(is_digit(d[i - start]));
            assert(dv as int == digit_value(d[i - start]));
            assert(dec_value(d.take(i - start + 1)) == acc as int * 10 + dv as int);
            assert(all_digits(d.take(i - start + 1))) by {
                assert(forall|j: int|
                    0 <= j < i - start + 1 ==> #[trigger] d.take(i - start + 1)[j] == d[j]);
                assert(forall|j: int| 0 <= j < i - start ==> #[trigger] d.take(i - start)[j] == d[j]);
                assert(forall|j: int|
                    0 <= j < i - start ==> is_digit(#[trigger] d.take(i - start)[j]));
            }
        }
        let stepped: Option<u64> = acc.checked_mul(10);
        match stepped {
            Some(m) => {
                match m.checked_add(dv) {
                    Some(v) => {
                        acc = v;
                    },
                    None => {
                        proof {
                            lemma_overflow_invalidates(s@, d, i - start + 1);
                        }
                        return None;
                    },
                }
            },
            None => {
                proof {
                    lemma_dec_value_nonneg(d.take(i - start));
                    assert(dec_value(d.take(i - start + 1)) > u64::MAX);
                    lemma_overflow_invalidates(s@, d, i - start + 1);
                }
                return None;
            },
        }
        i += 1;
    }
    proof {
        assert(d.take(n - start) =~= d);
    }
    Some(acc)
}

/// Once some digit prefix already exceeds `u64::MAX`, the whole segment
/// cannot be a valid delay: either a later character is not a digit, or
/// the full value is at least the prefix's.
proof fn lemma_overflow_invalidates(s: Seq<char>, d: Seq<char>, k: int)
    requires
        d == digits_part(s),
        0 <= k <= d.len(),
        all_digits(d.take(k)),
        dec_value(d.take(k)) > u64::MAX,
    ensures
        !is_valid_delay(s),
{
    if all_digits(d) {
        lemma_dec_value_take_le(d, k);
    }
}

} // verus!
