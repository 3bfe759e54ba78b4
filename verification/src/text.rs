//! Numbers as text.
use vstd::arithmetic::power::*;
use vstd::prelude::*;
use vstd::string::*;

verus! {

/// The character of a decimal digit.
pub open spec fn digit(d: int) -> char {
    (0x30 + d) as char
}

/// The decimal digits of a natural number, without leading zeros.
pub open spec fn digits(n: nat) -> Seq<char>
    decreases n,
{
    if n < 10 {
        seq![digit(n as int)]
    } else {
        digits(n / 10).push(digit((n % 10) as int))
    }
}

/// An integer in decimal, with a leading `-` if it is negative.
pub open spec fn decimal(n: int) -> Seq<char> {
    if n < 0 {
        seq!['-'] + digits((-n) as nat)
    } else {
        digits(n as nat)
    }
}

/// Specifies `String::push` of the standard library: the character is added at the end.
pub assume_specification[ String::push ](s: &mut String, ch: char)
    ensures
        final(s)@ == old(s)@.push(ch),
;

/// Appends the decimal digits of `n`.
pub fn push_digits(out: &mut String, n: u64)
    ensures
        final(out)@ == old(out)@ + digits(n as nat),
    decreases n,
{
    if n >= 10 {
        push_digits(out, n / 10);
    }
    out.push((0x30u8 + (n % 10) as u8) as char);
}

/// Appends `n` in decimal.
pub fn push_decimal(out: &mut String, n: i32)
    ensures
        final(out)@ == old(out)@ + decimal(n as int),
{
    if n < 0 {
        out.push('-');
        push_digits(out, (-(n as i64)) as u64);
    } else {
        push_digits(out, n as u64);
    }
}

/// The digits of a number are one or more characters from `0` to `9`.
pub proof fn lemma_digits_form(n: nat)
    ensures
        digits(n).len() > 0,
        forall|i: int| 0 <= i < digits(n).len() ==> '0' <= #[trigger] digits(n)[i] <= '9',
    decreases n,
{
    if n >= 10 {
        lemma_digits_form(n / 10);
    }
}

/// Different numbers have different digits.
pub proof fn lemma_digits_injective(m: nat, n: nat)
    requires
        digits(m) == digits(n),
    ensures
        m == n,
    decreases m,
{
    lemma_digits_form(m / 10);
    lemma_digits_form(n / 10);
    assert(digits(m).last() == digit((m % 10) as int));
    assert(digits(n).last() == digit((n % 10) as int));
    if m >= 10 && n >= 10 {
        assert(digits(m).drop_last() =~= digits(m / 10));
        assert(digits(n).drop_last() =~= digits(n / 10));
        lemma_digits_injective(m / 10, n / 10);
    }
}

/// The decimal form of an integer is one or more characters, each a digit or `-`.
pub proof fn lemma_decimal_form(n: int)
    ensures
        decimal(n).len() > 0,
        forall|i: int|
            0 <= i < decimal(n).len() ==> {
                let c = #[trigger] decimal(n)[i];
                '0' <= c <= '9' || c == '-'
            },
{
    lemma_digits_form((if n < 0 { -n } else { n }) as nat);
}

/// Different integers have different decimal forms.
pub proof fn lemma_decimal_injective(m: int, n: int)
    requires
        decimal(m) == decimal(n),
    ensures
        m == n,
{
    lemma_digits_form((if m < 0 { -m } else { m }) as nat);
    lemma_digits_form((if n < 0 { -n } else { n }) as nat);
    assert(m < 0 <==> decimal(m)[0] == '-');
    assert(n < 0 <==> decimal(n)[0] == '-');
    if m < 0 {
        assert(decimal(m).skip(1) =~= digits((-m) as nat));
        assert(decimal(n).skip(1) =~= digits((-n) as nat));
        lemma_digits_injective((-m) as nat, (-n) as nat);
    } else {
        lemma_digits_injective(m as nat, n as nat);
    }
}

/// The decimal digits of a number are those of its value at the powers of ten, the lowest
/// last, and there are no more of them than the number needs.
pub proof fn law_digits_are_decimal(n: nat)
    ensures
        digits(n).len() > 0,
        n < pow(10, digits(n).len()),
        digits(n).len() > 1 ==> n >= pow(10, (digits(n).len() - 1) as nat),
        forall|i: nat|
            i < digits(n).len() ==> #[trigger] digits(n)[digits(n).len() - 1 - i] as int == 0x30 + n
                as int / pow(10, i) % 10,
    decreases n,
{
    reveal(pow);
    lemma_pow0(10);
    lemma_pow1(10);
    if n >= 10 {
        let high = n / 10;
        let text = digits(n);
        law_digits_are_decimal(high);
        assert(text.len() == digits(high).len() + 1);
        assert(pow(10, text.len()) == 10 * pow(10, digits(high).len()));
        if digits(high).len() > 1 {
            assert(pow(10, digits(high).len()) == 10 * pow(10, (digits(high).len() - 1) as nat));
        }
        assert forall|i: nat| i < text.len() implies #[trigger] text[text.len() - 1 - i] as int
            == 0x30 + n as int / pow(10, i) % 10 by {
            if i > 0 {
                let j = (i - 1) as nat;
                assert(text[text.len() - 1 - i] == digits(high)[digits(high).len() - 1 - j]);
                lemma_pow_positive(10, j);
                assert(pow(10, i) == 10 * pow(10, j));
                vstd::arithmetic::div_mod::lemma_div_denominator(n as int, 10, pow(10, j));
            }
        }
    } else {
        assert(digits(n)[0] as int == 0x30 + n);
    }
}

/// A negative integer is written as a `-` and the digits of its opposite, any other as its
/// digits.
pub proof fn law_decimal_is_signed(n: nat)
    ensures
        decimal(n as int) == digits(n),
        n > 0 ==> decimal(-(n as int)) == seq!['-'] + digits(n),
{
}

} // verus!
