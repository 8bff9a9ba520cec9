//! Base-10 parsing of the offset and size arguments.
//!
//! A string is accepted exactly when it is an optional leading `+`
//! followed by one or more ASCII decimal digits whose value fits in
//! `usize`.  [`parse_dec`] returns that value, and `None` on every
//! other string.

use vstd::prelude::*;

verus! {

/// An ASCII decimal digit, `'0'` through `'9'`.
pub open spec fn is_dec_digit(c: char) -> bool {
    '0' as u32 <= c as u32 && c as u32 <= '9' as u32
}

/// The numeric value of a decimal digit.
pub open spec fn digit_value(c: char) -> nat
    recommends
        is_dec_digit(c),
{
    (c as u32 - '0' as u32) as nat
}

/// The value of a digit string read most-significant first.
pub open spec fn dec_value(s: Seq<char>) -> nat
    decreases s.len(),
{
    if s.len() == 0 {
        0
    } else {
        dec_value(s.drop_last()) * 10 + digit_value(s.last())
    }
}

/// The digit part of the argument: everything after an optional
/// leading `+` sign.
pub open spec fn digits_of(s: Seq<char>) -> Seq<char> {
    if s.len() > 0 && s[0] == '+' {
        s.skip(1)
    } else {
        s
    }
}

/// Whether every character of `s` is a decimal digit.
pub open spec fn all_digits(s: Seq<char>) -> bool {
    forall|i: int| 0 <= i < s.len() ==> is_dec_digit(s[i])
}

/// The strings accepted as a base-10 non-negative integer: an optional
/// leading `+`, then at least one digit, with a value that fits in
/// `usize`.
pub open spec fn parses(s: Seq<char>) -> bool {
    &&& digits_of(s).len() > 0
    &&& all_digits(digits_of(s))
    &&& dec_value(digits_of(s)) <= usize::MAX
}

/// Appending digits to a digit string never decreases its value, so a
/// prefix that already exceeds `usize::MAX` dooms the whole string.
proof fn lemma_dec_value_take_le(s: Seq<char>, k: int)
    requires
        0 <= k <= s.len(),
    ensures
        dec_value(s.take(k)) <= dec_value(s),
    decreases s.len() - k,
{
    if k == s.len() {
        assert(s.take(k) =~= s);
    } else {
        assert(s.take(k + 1).drop_last() =~= s.take(k));
        assert(s.take(k + 1).last() == s[k]);
        lemma_dec_value_take_le(s, k + 1);
    }
}

/// Parses `s` as a base-10 non-negative integer.
///
/// Returns `Some` exactly on the strings that [`parses`] accepts, and
/// then the value is [`dec_value`] of the digit part.
pub fn parse_dec(s: &str) -> (result: Option<usize>)
    ensures
        result is Some <==> parses(s@),
        result matches Some(v) ==> v == dec_value(digits_of(s@)),
{
    let len = s.unicode_len();
    let start: usize = if len > 0 && s.get_char(0) == '+' {
        1
    } else {
        0
    };
    proof {
        assert(digits_of(s@) =~= s@.subrange(start as int, len as int));
    }
    if len == start {
        return None;
    }
    let mut i = start;
    let mut acc: usize = 0;
    while i < len
        invariant
            s@.len() == len,
            start <= i <= len,
            digits_of(s@) =~= s@.subrange(start as int, len as int),
            forall|j: int| start <= j < i ==> is_dec_digit(s@[j]),
            acc == dec_value(s@.subrange(start as int, i as int)),
        decreases len - i,
    {
        let c = s.get_char(i);
        let cv = c as u32;
        if cv < '0' as u32 || cv > '9' as u32 {
            proof {
                assert(digits_of(s@)[i - start] == s@[i as int]);
                assert(!all_digits(digits_of(s@)));
            }
            return None;
        }
        let d = (cv - '0' as u32) as usize;
        proof {
            assert(s@.subrange(start as int, i + 1).drop_last() =~= s@.subrange(
                start as int,
                i as int,
            ));
            assert(s@.subrange(start as int, i + 1).last() == s@[i as int]);
        }
        let next = match acc.checked_mul(10) {
            Some(t) => t.checked_add(d),
            None => None,
        };
        match next {
            Some(v) => {
                acc = v;
            },
            None => {
                proof {
                    assert(dec_value(s@.subrange(start as int, i + 1)) > usize::MAX);
                    assert(s@.subrange(start as int, i + 1) =~= digits_of(s@).take(
                        i + 1 - start,
                    ));
                    lemma_dec_value_take_le(digits_of(s@), i + 1 - start);
                }
                return None;
            },
        }
        i = i + 1;
    }
    proof {
        assert(s@.subrange(start as int, len as int) =~= digits_of(s@));
    }
    Some(acc)
}

} // verus!
