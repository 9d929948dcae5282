//! Decimal integer parsing, proved against an exact grammar: an optional
//! sign followed by one or more decimal digits, with the value required to
//! fit the target type. Nothing else — no whitespace, no grouping — is
//! accepted.

use vstd::prelude::*;

use crate::errors::ErrorKind;
use crate::errors::ErrorKindView;

verus! {

/// Whether `c` is a decimal digit.
pub open spec fn is_digit(c: char) -> bool {
    48 <= c as u32 <= 57
}

/// The numeric value of a decimal digit.
pub open spec fn digit_value(c: char) -> int {
    c as u32 - 48
}

/// Whether every character of `s` is a decimal digit.
pub open spec fn all_digits(s: Seq<char>) -> bool {
    forall|i: int| 0 <= i < s.len() ==> is_digit(#[trigger] s[i])
}

/// The value of `s` read as a big-endian sequence of decimal digits.
pub open spec fn digits_value(s: Seq<char>) -> int
    decreases s.len(),
{
    if s.len() == 0 {
        0
    } else {
        digits_value(s.drop_last()) * 10 + digit_value(s.last())
    }
}

/// A digit string never has a negative value.
pub proof fn lemma_digits_nonneg(s: Seq<char>)
    requires
        all_digits(s),
    ensures
        digits_value(s) >= 0,
    decreases s.len(),
{
    if s.len() > 0 {
        lemma_digits_nonneg(s.drop_last());
        assert(is_digit(s.last()));
    }
}

/// Extending a digit string can only grow its value: the value of a prefix
/// bounds the value of the whole from below.
pub proof fn lemma_digits_monotone(s: Seq<char>, k: int)
    requires
        all_digits(s),
        0 <= k <= s.len(),
    ensures
        digits_value(s.take(k)) <= digits_value(s),
    decreases s.len() - k,
{
    if k < s.len() {
        lemma_digits_monotone(s.drop_last(), k);
        assert(s.drop_last().take(k) =~= s.take(k));
        lemma_digits_nonneg(s.drop_last());
        assert(is_digit(s.last()));
    } else {
        assert(s.take(k) =~= s);
    }
}

/// The unsigned 16-bit grammar: an optional `+`, one or more digits, value
/// at most 65535. `None` when the text does not match or the value does not
/// fit.
pub open spec fn spec_parse_u16(s: Seq<char>) -> Option<u16> {
    let body = if s.len() > 0 && s[0] == '+' {
        s.drop_first()
    } else {
        s
    };
    if body.len() > 0 && all_digits(body) && digits_value(body) <= 65535 {
        Some(digits_value(body) as u16)
    } else {
        None
    }
}

/// The signed 32-bit grammar: an optional `+` or `-`, one or more digits,
/// value within the 32-bit range. `None` when the text does not match or the
/// value does not fit.
pub open spec fn spec_parse_i32(s: Seq<char>) -> Option<i32> {
    let negative = s.len() > 0 && s[0] == '-';
    let body = if s.len() > 0 && (s[0] == '+' || s[0] == '-') {
        s.drop_first()
    } else {
        s
    };
    if body.len() > 0 && all_digits(body) {
        if negative && digits_value(body) <= 2147483648 {
            Some((-digits_value(body)) as i32)
        } else if !negative && digits_value(body) <= 2147483647 {
            Some(digits_value(body) as i32)
        } else {
            None
        }
    } else {
        None
    }
}

/// Parse the range `[from, to)` of `s` as an unsigned 16-bit integer.
pub fn parse_u16_range(s: &str, from: usize, to: usize) -> (r: Option<u16>)
    requires
        from <= to <= s@.len(),
    ensures
        r == spec_parse_u16(s@.subrange(from as int, to as int)),
{
    let ghost whole = s@.subrange(from as int, to as int);
    let mut i = from;
    if i < to {
        let c0 = s.get_char(i);
        proof {
            assert(whole[0] == s@[from as int]);
        }
        if c0 == '+' {
            i += 1;
            proof {
                assert(whole.drop_first() =~= s@.subrange(i as int, to as int));
            }
        }
    }
    let ghost body = s@.subrange(i as int, to as int);
    proof {
        assert(spec_parse_u16(whole) == (if body.len() > 0 && all_digits(body) && digits_value(
            body,
        ) <= 65535 {
            Some(digits_value(body) as u16)
        } else {
            None
        }));
    }
    if i == to {
        return None;
    }
    let mut acc: u32 = 0;
    let mut k = i;
    while k < to
        invariant
            from <= i <= k <= to <= s@.len(),
            whole == s@.subrange(from as int, to as int),
            body == s@.subrange(i as int, to as int),
            spec_parse_u16(whole) == (if body.len() > 0 && all_digits(body) && digits_value(body)
                <= 65535 {
                Some(digits_value(body) as u16)
            } else {
                None
            }),
            i < to,
            forall|j: int| 0 <= j < k - i ==> is_digit(#[trigger] body[j]),
            acc <= 65535,
            acc == digits_value(body.take(k - i)),
        decreases to - k,
    {
        let c = s.get_char(k);
        proof {
            assert(body[k - i] == s@[k as int]);
        }
        if !(c >= '0' && c <= '9') {
            proof {
                assert(!is_digit(body[k - i]));
            }
            return None;
        }
        let d: u32 = (c as u32) - 48;
        let next: u32 = acc * 10 + d;
        proof {
            assert(body.take(k - i + 1).drop_last() =~= body.take(k - i));
            assert(body.take(k - i + 1).last() == body[k - i]);
        }
        if next > 65535 {
            proof {
                if all_digits(body) {
                    lemma_digits_monotone(body, k - i + 1);
                }
            }
            return None;
        }
        acc = next;
        k += 1;
    }
    proof {
        assert(body.take(k - i) =~= body);
    }
    Some(acc as u16)
}

/// Parse the range `[from, to)` of `s` as a signed 32-bit integer.
pub fn parse_i32_range(s: &str, from: usize, to: usize) -> (r: Option<i32>)
    requires
        from <= to <= s@.len(),
    ensures
        r == spec_parse_i32(s@.subrange(from as int, to as int)),
{
    let ghost whole = s@.subrange(from as int, to as int);
    let mut i = from;
    let mut negative = false;
    if i < to {
        let c0 = s.get_char(i);
        if c0 == '+' || c0 == '-' {
            negative = c0 == '-';
            i += 1;
            proof {
                assert(whole.drop_first() =~= s@.subrange(i as int, to as int));
            }
        }
    }
    let ghost body = s@.subrange(i as int, to as int);
    let ghost limit: int = if negative {
        2147483648
    } else {
        2147483647
    };
    proof {
        assert(spec_parse_i32(whole) == (if body.len() > 0 && all_digits(body) && digits_value(
            body,
        ) <= limit {
            if negative {
                Some((-digits_value(body)) as i32)
            } else {
                Some(digits_value(body) as i32)
            }
        } else {
            None
        }));
    }
    if i == to {
        return None;
    }
    let mut acc: u64 = 0;
    let mut k = i;
    while k < to
        invariant
            from <= i <= k <= to <= s@.len(),
            whole == s@.subrange(from as int, to as int),
            body == s@.subrange(i as int, to as int),
            spec_parse_i32(whole) == (if body.len() > 0 && all_digits(body) && digits_value(body)
                <= limit {
                if negative {
                    Some((-digits_value(body)) as i32)
                } else {
                    Some(digits_value(body) as i32)
                }
            } else {
                None
            }),
            limit == if negative {
                2147483648int
            } else {
                2147483647int
            },
            i < to,
            forall|j: int| 0 <= j < k - i ==> is_digit(#[trigger] body[j]),
            acc <= 2147483648,
            acc == digits_value(body.take(k - i)),
        decreases to - k,
    {
        let c = s.get_char(k);
        proof {
            assert(body[k - i] == s@[k as int]);
        }
        if !(c >= '0' && c <= '9') {
            proof {
                assert(!is_digit(body[k - i]));
            }
            return None;
        }
        let d: u64 = (c as u64) - 48;
        let next: u64 = acc * 10 + d;
        proof {
            assert(body.take(k - i + 1).drop_last() =~= body.take(k - i));
            assert(body.take(k - i + 1).last() == body[k - i]);
        }
        if next > 2147483648 {
            proof {
                if all_digits(body) {
                    lemma_digits_monotone(body, k - i + 1);
                }
            }
            return None;
        }
        acc = next;
        k += 1;
    }
    proof {
        assert(body.take(k - i) =~= body);
    }
    if negative {
        if acc == 2147483648 {
            Some(i32::MIN)
        } else {
            Some(-(acc as i32))
        }
    } else {
        if acc > 2147483647 {
            None
        } else {
            Some(acc as i32)
        }
    }
}

/// Parse a whole string as a signed 32-bit integer. A text outside the
/// grammar — or a value outside the 32-bit range — fails with
/// [`ErrorKind::Parse`] carrying the offending text.
pub fn parse_number(s: &str) -> (r: Result<i32, ErrorKind>)
    ensures
        spec_parse_i32(s@) matches Some(v) ==> r == Ok::<i32, ErrorKind>(v),
        spec_parse_i32(s@) is None ==> (r matches Err(e) && e@ == ErrorKindView::Parse(s@)),
{
    let n = s.unicode_len();
    proof {
        assert(s@.subrange(0, s@.len() as int) =~= s@);
    }
    match parse_i32_range(s, 0, n) {
        Some(v) => Ok(v),
        None => Err(ErrorKind::from_parse(s.to_owned())),
    }
}

} // verus!
