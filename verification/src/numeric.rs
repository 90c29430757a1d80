//! Decimal text of integers.
use vstd::prelude::*;
use crate::version::{all_ascii_digits, is_ascii_digit};

verus! {

/// The ASCII digit for `d` (meant for `d < 10`).
pub open spec fn digit_char(d: int) -> char {
    (d + 48) as char
}

/// The value of the ASCII digit `c`.
pub open spec fn digit_value(c: char) -> int {
    c as int - 48
}

/// The decimal representation of `n`, without leading zeros.
pub open spec fn decimal(n: nat) -> Seq<char>
    decreases n,
{
    if n < 10 {
        seq![digit_char(n as int)]
    } else {
        decimal(n / 10).push(digit_char((n % 10) as int))
    }
}

/// The decimal representation of `n`, with a leading `-` when negative: what
/// `n.to_string()` gives for an integer `n`.
pub open spec fn signed_decimal(n: int) -> Seq<char> {
    if n < 0 {
        seq!['-'] + decimal((-n) as nat)
    } else {
        decimal(n as nat)
    }
}

/// The number that the ASCII digits `s` spell, most significant first.
pub open spec fn digits_value(s: Seq<char>) -> int
    decreases s.len(),
{
    if s.len() == 0 {
        0
    } else {
        digits_value(s.drop_last()) * 10 + digit_value(s.last())
    }
}

/// The decimal representation consists of ASCII digits, starts with one, and
/// spells `n` back.
pub proof fn lemma_decimal(n: nat)
    ensures
        decimal(n).len() > 0,
        all_ascii_digits(decimal(n)),
        is_ascii_digit(decimal(n)[0]),
        digits_value(decimal(n)) == n,
    decreases n,
{
    if n < 10 {
        assert(digit_value(digit_char(n as int)) == n);
        assert(decimal(n).drop_last() =~= Seq::<char>::empty());
        assert(digits_value(decimal(n)) == digits_value(decimal(n).drop_last()) * 10
            + digit_value(decimal(n).last()));
    } else {
        lemma_decimal(n / 10);
        let d = decimal(n);
        assert(d.drop_last() =~= decimal(n / 10));
        assert(digit_value(digit_char((n % 10) as int)) == n % 10);
        assert(n == (n / 10) * 10 + n % 10);
        assert(d.last() == digit_char((n % 10) as int));
        assert(digits_value(d) == digits_value(d.drop_last()) * 10 + digit_value(d.last()));
        assert forall|i: int| 0 <= i < d.len() implies is_ascii_digit(#[trigger] d[i]) by {
            if i < d.len() - 1 {
                assert(d[i] == decimal(n / 10)[i]);
            }
        }
    }
}

/// Distinct numbers have distinct decimal texts: the text of a timestamp
/// names that timestamp alone.
pub proof fn lemma_signed_decimal_injective(a: int, b: int)
    ensures
        signed_decimal(a) == signed_decimal(b) ==> a == b,
{
    if signed_decimal(a) == signed_decimal(b) {
        if a < 0 {
            lemma_decimal((-a) as nat);
            assert(signed_decimal(a)[0] == '-');
            if b < 0 {
                lemma_decimal((-b) as nat);
                assert(signed_decimal(a).skip(1) =~= decimal((-a) as nat));
                assert(signed_decimal(b).skip(1) =~= decimal((-b) as nat));
            } else {
                lemma_decimal(b as nat);
                assert(is_ascii_digit(signed_decimal(b)[0]));
            }
        } else {
            lemma_decimal(a as nat);
            if b < 0 {
                lemma_decimal((-b) as nat);
                assert(signed_decimal(b)[0] == '-');
                assert(is_ascii_digit(signed_decimal(a)[0]));
            } else {
                lemma_decimal(b as nat);
            }
        }
    }
}

/// Appends `c` to `s` (`String::push`).
#[verifier::external_body]
fn push_char(s: &mut String, c: char)
    ensures
        final(s)@ == old(s)@.push(c),
{
    s.push(c);
}

fn push_decimal(s: &mut String, n: u64)
    ensures
        final(s)@ == old(s)@ + decimal(n as nat),
    decreases n,
{
    if n >= 10 {
        push_decimal(s, n / 10);
    }
    let d = (n % 10) as u8;
    let c = (48u8 + d) as char;
    assert(c == digit_char((n % 10) as int));
    push_char(s, c);
    assert(s@ =~= old(s)@ + decimal(n as nat));
}

/// The decimal text of `n` (what `n.to_string()` gives).
pub fn i64_to_decimal(n: i64) -> (res: String)
    ensures
        res@ == signed_decimal(n as int),
{
    let mut s = String::new();
    if n < 0 {
        push_char(&mut s, '-');
        let m = (-(n as i128)) as u64;
        push_decimal(&mut s, m);
    } else {
        push_decimal(&mut s, n as u64);
    }
    s
}

/// The decimal text of `n` (what `n.to_string()` gives).
pub fn u64_to_decimal(n: u64) -> (res: String)
    ensures
        res@ == decimal(n as nat),
{
    let mut s = String::new();
    push_decimal(&mut s, n);
    assert(s@ =~= decimal(n as nat));
    s
}

} // verus!
