//! The app-status parser: status values are declared as text literals but
//! consumed as a strongly typed value of the target app-status type.

use vstd::prelude::*;

verus! {

/// A decimal digit, `'0'` through `'9'`.
pub open spec fn is_digit(c: char) -> bool {
    48 <= c as int <= 57
}

/// The numeric value of one decimal digit.
pub open spec fn digit_value(c: char) -> int {
    c as int - 48
}

/// Every character of `s` is a decimal digit.
pub open spec fn all_digits(s: Seq<char>) -> bool {
    forall|i: int| 0 <= i < s.len() ==> is_digit(#[trigger] s[i])
}

/// The numeric value of a digit string, most significant digit first.
pub open spec fn dec_value(s: Seq<char>) -> int
    decreases s.len(),
{
    if s.len() == 0 {
        0
    } else {
        dec_value(s.drop_last()) * 10 + digit_value(s.last())
    }
}

/// What parsing a text as a `u16` status yields: the decimal value of a
/// non-empty all-digit string that fits in `u16`, and nothing else.
pub open spec fn u16_status(s: Seq<char>) -> Option<u16> {
    if s.len() > 0 && all_digits(s) && dec_value(s) <= u16::MAX {
        Some(dec_value(s) as u16)
    } else {
        None
    }
}

/// An app-status type: declared as a text literal per variant, consumed as a
/// typed value. `parse_spec` fixes what every text parses to, so parsing the
/// same literal twice always yields the same value.
pub trait AppStatus: Sized {
    /// What parsing a given text yields; `None` where the text does not
    /// denote a status value of this type.
    spec fn parse_spec(s: Seq<char>) -> Option<Self>;

    /// Parse a status literal.
    fn parse_status(s: &str) -> (r: Option<Self>)
        ensures
            r == Self::parse_spec(s@),
    ;
}

proof fn lemma_dec_value_nonneg(s: Seq<char>)
    requires
        all_digits(s),
    ensures
        dec_value(s) >= 0,
    decreases s.len(),
{
    if s.len() > 0 {
        assert(all_digits(s.drop_last()));
        lemma_dec_value_nonneg(s.drop_last());
    }
}

/// A digit string is worth at least as much as any of its prefixes.
proof fn lemma_dec_value_prefix(s: Seq<char>, i: int)
    requires
        all_digits(s),
        0 <= i <= s.len(),
    ensures
        dec_value(s.take(i)) <= dec_value(s),
    decreases s.len(),
{
    if i == s.len() {
        assert(s.take(i) =~= s);
    } else {
        let t = s.drop_last();
        assert(all_digits(t));
        assert(s.take(i) =~= t.take(i));
        lemma_dec_value_prefix(t, i);
        lemma_dec_value_nonneg(t);
    }
}

/// The value of a three-digit status literal, as `u16_status` yields it.
pub proof fn lemma_u16_status_three_digits(s: Seq<char>, a: char, b: char, c: char)
    requires
        s =~= seq![a, b, c],
        is_digit(a),
        is_digit(b),
        is_digit(c),
    ensures
        u16_status(s) == Some(
            (digit_value(a) * 100 + digit_value(b) * 10 + digit_value(c)) as u16,
        ),
{
    let s1 = seq![a];
    let s2 = seq![a, b];
    assert(s.drop_last() =~= s2);
    assert(s2.drop_last() =~= s1);
    assert(s1.drop_last() =~= Seq::<char>::empty());
    assert(dec_value(Seq::<char>::empty()) == 0);
    assert(dec_value(s1) == digit_value(a));
    assert(dec_value(s2) == digit_value(a) * 10 + digit_value(b));
    assert(dec_value(s) == digit_value(a) * 100 + digit_value(b) * 10 + digit_value(c));
    assert(all_digits(s));
}

impl AppStatus for u16 {
    open spec fn parse_spec(s: Seq<char>) -> Option<u16> {
        u16_status(s)
    }

    fn parse_status(s: &str) -> (r: Option<u16>) {
        let n = s.unicode_len();
        if n == 0 {
            return None;
        }
        let mut value: u32 = 0;
        let mut i: usize = 0;
        while i < n
            invariant
                0 <= i <= n,
                n == s@.len(),
                all_digits(s@.take(i as int)),
                value == dec_value(s@.take(i as int)),
                value <= 65535,
            decreases n - i,
        {
            let c = s.get_char(i);
            let d = c as u32;
            if d < 48 || d > 57 {
                assert(!is_digit(s@[i as int]));
                return None;
            }
            let next = value * 10 + (d - 48);
            proof {
                let t = s@.take(i as int);
                assert(s@.take(i + 1) =~= t.push(s@[i as int]));
                assert(s@.take(i + 1).drop_last() =~= t);
                assert(dec_value(s@.take(i + 1)) == dec_value(t) * 10 + digit_value(s@[i as int]));
            }
            if next > 65535 {
                proof {
                    if all_digits(s@) {
                        lemma_dec_value_prefix(s@, i + 1);
                    }
                }
                return None;
            }
            value = next;
            i = i + 1;
        }
        assert(s@.take(n as int) =~= s@);
        Some(value as u16)
    }
}

/// Re-parsing the same literal always yields the same value: any two results
/// that meet the parser's contract on equal text are equal.
pub proof fn lemma_parse_deterministic<T: AppStatus>(s: Seq<char>, r1: Option<T>, r2: Option<T>)
    requires
        r1 == T::parse_spec(s),
        r2 == T::parse_spec(s),
    ensures
        r1 == r2,
{
}

} // verus!
