//! Decimal text of unsigned integers, and the few string operations that the
//! library builds and compares its texts with.

use vstd::prelude::*;

verus! {

/// `String::push` of the standard library: the text afterwards is the text
/// before with `ch` added at its end.
pub assume_specification[ String::push ](text: &mut String, ch: char)
    ensures
        final(text)@ == old(text)@.push(ch),
;

/// Whether two string slices hold the same text.
pub fn same_text(a: &str, b: &str) -> (same: bool)
    ensures
        same == (a@ == b@),
{
    a.to_owned() == b.to_owned()
}

/// The character of a decimal digit.
pub open spec fn digit_char(digit: nat) -> char
    recommends
        digit < 10,
{
    (48 + digit) as char
}

/// The decimal text of a natural number, without sign or leading zeros.
pub open spec fn decimal(n: nat) -> Seq<char>
    decreases n,
{
    if n < 10 {
        seq![digit_char(n)]
    } else {
        decimal(n / 10).push(digit_char(n % 10))
    }
}

/// A character is one of `0` to `9`.
pub open spec fn is_digit(c: char) -> bool {
    '0' <= c <= '9'
}

/// A decimal text is never empty and holds digits only.
pub proof fn lemma_decimal_digits(n: nat)
    ensures
        decimal(n).len() >= 1,
        forall|i: int| 0 <= i < decimal(n).len() ==> is_digit(#[trigger] decimal(n)[i]),
    decreases n,
{
    if n >= 10 {
        lemma_decimal_digits(n / 10);
    }
}

/// Numbers of two or more digits have a text of two or more characters.
proof fn lemma_decimal_long(n: nat)
    requires
        n >= 10,
    ensures
        decimal(n).len() >= 2,
{
    lemma_decimal_digits(n / 10);
}

/// Numbers with the same decimal text are the same number.
pub proof fn lemma_decimal_injective(a: nat, b: nat)
    requires
        decimal(a) == decimal(b),
    ensures
        a == b,
    decreases a,
{
    if a < 10 {
        if b >= 10 {
            lemma_decimal_long(b);
        } else {
            assert(decimal(a)[0] == digit_char(a));
            assert(decimal(b)[0] == digit_char(b));
            assert(digit_char(a) as int == 48 + a);
            assert(digit_char(b) as int == 48 + b);
        }
    } else {
        lemma_decimal_long(a);
        if b >= 10 {
            assert(decimal(a).drop_last() == decimal(a / 10));
            assert(decimal(b).drop_last() == decimal(b / 10));
            assert(decimal(a).last() == digit_char(a % 10));
            assert(decimal(b).last() == digit_char(b % 10));
            assert(digit_char(a % 10) as int == 48 + a % 10);
            assert(digit_char(b % 10) as int == 48 + b % 10);
            lemma_decimal_injective(a / 10, b / 10);
        }
    }
}

/// Renders `n` in decimal.
pub fn decimal_text(n: u32) -> (text: String)
    ensures
        text@ == decimal(n as nat),
{
    let mut digits: Vec<u8> = Vec::new();
    let mut rest: u32 = n;
    while rest >= 10
        invariant
            forall|i: int| 0 <= i < digits.len() ==> #[trigger] digits[i] < 10,
            decimal(n as nat) == decimal(rest as nat) + tail_text(digits@),
        decreases rest,
    {
        let digit: u8 = (rest % 10) as u8;
        proof {
            assert(decimal(rest as nat) == decimal((rest / 10) as nat).push(
                digit_char(digit as nat),
            ));
            assert(tail_text(digits@.push(digit)) == seq![digit_char(digit as nat)] + tail_text(
                digits@,
            )) by {
                assert(digits@.push(digit).drop_last() == digits@);
            }
            assert(decimal((rest / 10) as nat).push(digit_char(digit as nat)) + tail_text(digits@)
                == decimal((rest / 10) as nat) + tail_text(digits@.push(digit)));
        }
        digits.push(digit);
        rest = rest / 10;
    }
    let mut text = String::new();
    let lead: u8 = rest as u8;
    text.push((48u8 + lead) as char);
    let mut k: usize = digits.len();
    proof {
        assert(text@ == decimal(rest as nat));
        assert(digits@.take(k as int) == digits@);
    }
    while k > 0
        invariant
            k <= digits.len(),
            forall|i: int| 0 <= i < digits.len() ==> #[trigger] digits[i] < 10,
            text@ + tail_text(digits@.take(k as int)) == decimal(n as nat),
        decreases k,
    {
        k = k - 1;
        let digit: u8 = digits[k];
        proof {
            let before = digits@.take(k + 1);
            assert(before.drop_last() == digits@.take(k as int));
            assert(before.last() == digit);
            assert(text@ + (seq![digit_char(digit as nat)] + tail_text(digits@.take(k as int)))
                == text@.push(digit_char(digit as nat)) + tail_text(digits@.take(k as int)));
        }
        text.push((48u8 + digit) as char);
    }
    proof {
        assert(digits@.take(0) == Seq::<u8>::empty());
        assert(text@ + Seq::<char>::empty() == text@);
    }
    text
}

/// The text of digits stored least significant first.
spec fn tail_text(digits: Seq<u8>) -> Seq<char>
    decreases digits.len(),
{
    if digits.len() == 0 {
        Seq::empty()
    } else {
        seq![digit_char(digits.last() as nat)] + tail_text(digits.drop_last())
    }
}

} // verus!
