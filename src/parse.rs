use vstd::prelude::*;

use crate::text::str_equal;

verus! {

/// An ASCII decimal digit.
pub open spec fn is_ascii_digit(c: char) -> bool {
    48 <= (c as int) <= 57
}

/// The value of a string of decimal digits.
pub open spec fn digits_value(d: Seq<char>) -> nat
    decreases d.len(),
{
    if d.len() == 0 {
        0
    } else {
        digits_value(d.drop_last()) * 10 + ((d.last() as int) - 48) as nat
    }
}

/// The digits of an unsigned number written with an optional leading `+`.
pub open spec fn unsigned_digits(s: Seq<char>) -> Seq<char> {
    if s.len() > 0 && s[0] == '+' {
        s.drop_first()
    } else {
        s
    }
}

/// The value of an unsigned decimal number: an optional `+` and at least one
/// digit, nothing else.
pub open spec fn unsigned_value(s: Seq<char>) -> Option<nat> {
    let d = unsigned_digits(s);
    if d.len() > 0 && forall|i: int| 0 <= i < d.len() ==> is_ascii_digit(#[trigger] d[i]) {
        Some(digits_value(d))
    } else {
        None
    }
}

/// The value of `s` read as an unsigned number no larger than `max`.
pub open spec fn unsigned_at_most(s: Seq<char>, max: u64) -> Option<u64> {
    match unsigned_value(s) {
        Some(v) => if v <= max {
            Some(v as u64)
        } else {
            None
        },
        None => None,
    }
}

proof fn lemma_digits_value_grows(d: Seq<char>, k: int)
    requires
        0 <= k <= d.len(),
        forall|i: int| 0 <= i < d.len() ==> is_ascii_digit(#[trigger] d[i]),
    ensures
        digits_value(d.subrange(0, k)) <= digits_value(d),
    decreases d.len(),
{
    if k < d.len() {
        let t = d.drop_last();
        assert(t.subrange(0, k) =~= d.subrange(0, k));
        assert forall|i: int| 0 <= i < t.len() implies is_ascii_digit(#[trigger] t[i]) by {
            assert(t[i] == d[i]);
        }
        lemma_digits_value_grows(t, k);
        assert(digits_value(t) <= digits_value(t) * 10) by (nonlinear_arith);
    } else {
        assert(d.subrange(0, k) =~= d);
    }
}

/// Reads an unsigned decimal number no larger than `max`.
pub fn parse_unsigned(s: &str, max: u64) -> (r: Option<u64>)
    ensures
        r == unsigned_at_most(s@, max),
{
    let n = s.unicode_len();
    let mut start: usize = 0;
    if n > 0 && s.get_char(0) == '+' {
        start = 1;
    }
    let ghost d = unsigned_digits(s@);
    assert(d =~= s@.subrange(start as int, n as int));
    if start == n {
        return None;
    }
    let mut value: u64 = 0;
    let mut i: usize = start;
    while i < n
        invariant
            n == s@.len(),
            start <= i <= n,
            start < n,
            d == s@.subrange(start as int, n as int),
            d == unsigned_digits(s@),
            forall|k: int| 0 <= k < i - start ==> is_ascii_digit(#[trigger] d[k]),
            value as nat == digits_value(d.subrange(0, i - start)),
            value <= max,
        decreases n - i,
    {
        let c = s.get_char(i);
        assert(c == d[i - start]);
        let code = c as u32;
        if !(48 <= code && code <= 57) {
            assert(!is_ascii_digit(d[i - start]));
            assert(unsigned_value(s@) is None);
            return None;
        }
        let next: u128 = value as u128 * 10 + (code - 48) as u128;
        proof {
            let sub = d.subrange(0, i + 1 - start);
            assert(sub.drop_last() =~= d.subrange(0, i - start));
            assert(sub.last() == d[i - start]);
            assert(digits_value(sub) == next);
        }
        if next > max as u128 {
            proof {
                if forall|k: int| 0 <= k < d.len() ==> is_ascii_digit(#[trigger] d[k]) {
                    lemma_digits_value_grows(d, i + 1 - start);
                    assert(unsigned_value(s@) == Some(digits_value(d)));
                } else {
                    assert(unsigned_value(s@) is None);
                }
            }
            return None;
        }
        value = next as u64;
        i = i + 1;
    }
    assert(d.subrange(0, n - start) =~= d);
    Some(value)
}

/// Reads `true` or `false`.
pub fn parse_bool(s: &str) -> (r: Option<bool>)
    ensures
        s@ == "true"@ ==> r == Some(true),
        s@ == "false"@ ==> r == Some(false),
        s@ != "true"@ && s@ != "false"@ ==> r is None,
{
    proof {
        reveal_strlit("true");
        reveal_strlit("false");
        assert("true"@.len() == 4);
        assert("false"@.len() == 5);
    }
    if str_equal(s, "true") {
        Some(true)
    } else if str_equal(s, "false") {
        Some(false)
    } else {
        None
    }
}

} // verus!
