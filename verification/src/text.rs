//! Decimal rendering of unsigned integers and quoting of strings.

use vstd::prelude::*;
use vstd::string::StringExecFns;

verus! {

/// The character that stands for a decimal digit.
pub open spec fn digit_char(digit: nat) -> char
    recommends
        digit < 10,
{
    (48 + digit) as u8 as char
}

/// The decimal rendering of a number: no sign, no leading zeros, `"0"` for
/// zero.
pub open spec fn decimal(n: nat) -> Seq<char>
    decreases n,
{
    if n < 10 {
        seq![digit_char(n)]
    } else {
        decimal(n / 10).push(digit_char(n % 10))
    }
}

/// The number that a string of decimal digits stands for.
pub open spec fn decimal_value(digits: Seq<char>) -> nat
    decreases digits.len(),
{
    if digits.len() == 0 {
        0
    } else {
        (10 * decimal_value(digits.drop_last()) + (digits.last() as u8 - 48)) as nat
    }
}

/// Reading a rendering gives the number back.
pub proof fn lemma_decimal_value(n: nat)
    ensures
        decimal_value(decimal(n)) == n,
    decreases n,
{
    if n < 10 {
        assert(decimal(n).drop_last() =~= Seq::<char>::empty());
        assert(decimal_value(decimal(n).drop_last()) == 0);
        assert(decimal(n).last() == digit_char(n));
    } else {
        lemma_decimal_value(n / 10);
        assert(decimal(n).drop_last() =~= decimal(n / 10));
        assert(decimal(n).last() == digit_char(n % 10));
    }
}

/// Two numbers with the same rendering are the same number.
pub proof fn lemma_decimal_injective(a: nat, b: nat)
    requires
        decimal(a) == decimal(b),
    ensures
        a == b,
{
    lemma_decimal_value(a);
    lemma_decimal_value(b);
}

/// The digits of `rest` that are still to be produced: none once it is zero.
spec fn leading(rest: nat) -> Seq<char> {
    if rest == 0 {
        Seq::empty()
    } else {
        decimal(rest)
    }
}

/// The characters for digits that were collected lowest first.
spec fn rendered(digits: Seq<u8>) -> Seq<char> {
    Seq::new(digits.len(), |i: int| digit_char(digits[digits.len() - 1 - i] as nat))
}

fn digit_text(digit: u8) -> (text: &'static str)
    requires
        digit < 10,
    ensures
        text@ == seq![digit_char(digit as nat)],
{
    proof {
        reveal_strlit("0");
        reveal_strlit("1");
        reveal_strlit("2");
        reveal_strlit("3");
        reveal_strlit("4");
        reveal_strlit("5");
        reveal_strlit("6");
        reveal_strlit("7");
        reveal_strlit("8");
        reveal_strlit("9");
    }
    let text = match digit {
        0 => "0",
        1 => "1",
        2 => "2",
        3 => "3",
        4 => "4",
        5 => "5",
        6 => "6",
        7 => "7",
        8 => "8",
        _ => "9",
    };
    assert(text@ =~= seq![digit_char(digit as nat)]);
    text
}

/// Renders `n` in decimal.
pub fn decimal_string(n: u128) -> (text: String)
    ensures
        text@ == decimal(n as nat),
{
    let mut digits: Vec<u8> = Vec::new();
    digits.push((n % 10) as u8);
    let mut rest: u128 = n / 10;
    assert(decimal(n as nat) =~= leading(rest as nat) + rendered(digits@));
    while rest > 0
        invariant
            forall|i: int| 0 <= i < digits@.len() ==> digits@[i] < 10,
            decimal(n as nat) == leading(rest as nat) + rendered(digits@),
        decreases rest,
    {
        let ghost before = digits@;
        digits.push((rest % 10) as u8);
        assert(rendered(digits@) =~= seq![digit_char((rest % 10) as nat)] + rendered(before));
        assert(leading(rest as nat) =~= leading((rest / 10) as nat) + seq![
            digit_char((rest % 10) as nat),
        ]);
        rest = rest / 10;
    }
    let mut text = String::new();
    let mut left: usize = digits.len();
    while left > 0
        invariant
            left <= digits@.len(),
            forall|i: int| 0 <= i < digits@.len() ==> digits@[i] < 10,
            text@ == rendered(digits@).subrange(0, digits@.len() - left),
        decreases left,
    {
        left = left - 1;
        text.append(digit_text(digits[left]));
        assert(text@ =~= rendered(digits@).subrange(0, digits@.len() - left));
    }
    assert(text@ =~= rendered(digits@));
    text
}

/// What `{:?}` prints for a string: the string in double quotes, with the
/// characters that need it escaped.
pub uninterp spec fn quoted_spec(text: Seq<char>) -> Seq<char>;

/// Quotes a string as `format!("{:?}", ..)` does.
///
/// Trusted: the result is a function of the characters of `text` alone.
#[verifier::external_body]
pub(crate) fn quoted(text: &str) -> (out: String)
    ensures
        out@ == quoted_spec(text@),
{
    format!("{:?}", text)
}

} // verus!
