use vstd::prelude::*;
use vstd::string::*;
use crate::amount::Amount;
use thousands::Separable;

verus! {

/// The decimal digit `d`.
pub open spec fn digit_char(d: nat) -> char {
    if d == 0 { '0' }
    else if d == 1 { '1' }
    else if d == 2 { '2' }
    else if d == 3 { '3' }
    else if d == 4 { '4' }
    else if d == 5 { '5' }
    else if d == 6 { '6' }
    else if d == 7 { '7' }
    else if d == 8 { '8' }
    else { '9' }
}

/// The decimal digits of `n`, most significant first, without leading zeros.
pub open spec fn digits_of(n: nat) -> Seq<char>
    decreases n,
{
    if n < 10 {
        seq![digit_char(n)]
    } else {
        digits_of(n / 10).push(digit_char(n % 10))
    }
}

/// An integer written in decimal, with a leading `-` when negative.
pub open spec fn int_text(n: int) -> Seq<char> {
    if n < 0 {
        seq!['-'] + digits_of((-n) as nat)
    } else {
        digits_of(n as nat)
    }
}

/// The decimal digits of `n`, most significant first; none for zero.
pub open spec fn bare_digits(n: nat) -> Seq<char>
    decreases n,
{
    if n == 0 {
        Seq::empty()
    } else {
        bare_digits(n / 10).push(digit_char(n % 10))
    }
}

/// How `rust_decimal` writes the number `mantissa / 10^scale`: a `-` when
/// negative, the whole part (`0` when there is none), then, when the scale
/// is not zero, a point and exactly `scale` fractional digits.
pub open spec fn decimal_text_of(mantissa: int, scale: nat) -> Seq<char> {
    let d = bare_digits((if mantissa < 0 { -mantissa } else { mantissa }) as nat);
    let padded = if d.len() < scale { Seq::new((scale - d.len()) as nat, |i: int| '0') + d } else { d };
    let whole = padded.subrange(0, padded.len() - scale);
    let fraction = padded.subrange(padded.len() - scale, padded.len() as int);
    (if mantissa < 0 { seq!['-'] } else { Seq::empty() }) + (if whole.len() == 0 { seq!['0'] } else { whole }) + (
    if scale > 0 {
        seq!['.'] + fraction
    } else {
        Seq::empty()
    })
}

pub open spec fn is_ascii_digit(c: char) -> bool {
    '0' <= c && c <= '9'
}

/// How many characters come before the first ASCII digit.
pub open spec fn before_digits(s: Seq<char>) -> nat
    decreases s.len(),
{
    if s.len() == 0 || is_ascii_digit(s[0]) {
        0
    } else {
        1 + before_digits(s.drop_first())
    }
}

/// How many ASCII digits the text starts with.
pub open spec fn digit_run(s: Seq<char>) -> nat
    decreases s.len(),
{
    if s.len() == 0 || !is_ascii_digit(s[0]) {
        0
    } else {
        1 + digit_run(s.drop_first())
    }
}

/// Digits with a comma before each group of three, counted from the right.
pub open spec fn group_by_three(d: Seq<char>) -> Seq<char>
    decreases d.len(),
{
    if d.len() <= 3 {
        d
    } else {
        group_by_three(d.subrange(0, d.len() - 3)) + seq![','] + d.subrange(d.len() - 3, d.len() as int)
    }
}

/// The text with its first run of ASCII digits grouped by three with
/// commas, the rest left as it is.
pub open spec fn comma_grouped(s: Seq<char>) -> Seq<char> {
    let a = before_digits(s) as int;
    let rest = s.subrange(a, s.len() as int);
    let b = digit_run(rest) as int;
    s.subrange(0, a) + group_by_three(rest.subrange(0, b)) + rest.subrange(b, rest.len() as int)
}

/// Relies on `i64`'s `Display` (through `ToString`): decimal digits with a
/// leading minus sign for negative numbers.
#[verifier::external_body]
fn integer_text(n: i64) -> (r: String)
    ensures
        r@ == int_text(n as int),
{
    n.to_string()
}

/// Relies on `rust_decimal::Decimal::from_i128_with_scale` (which panics only
/// beyond 96 bits or 28 digits of scale, ruled out by `wf`) and on the
/// `Display` of `Decimal`, which writes the digits of the mantissa with the
/// point placed by the scale.
#[verifier::external_body]
fn decimal_text(a: &Amount) -> (r: String)
    requires
        a.wf(),
    ensures
        r@ == decimal_text_of(a.mantissa as int, a.scale as nat),
{
    rust_decimal::Decimal::from_i128_with_scale(a.mantissa, a.scale).to_string()
}

/// Relies on `thousands::Separable::separate_with_commas` on a `str`: a comma
/// every three digits from the right in the first run of ASCII digits.
#[verifier::external_body]
fn with_commas(s: &str) -> (r: String)
    ensures
        r@ == comma_grouped(s@),
{
    s.separate_with_commas()
}

/// An amount as the messages show it: its decimal text, grouped by commas.
pub open spec fn amount_shown(a: Amount) -> Seq<char> {
    comma_grouped(decimal_text_of(a.mantissa as int, a.scale as nat))
}

/// An amount written in decimal and grouped by thousands.
pub fn show_amount(a: &Amount) -> (r: String)
    requires
        a.wf(),
    ensures
        r@ == amount_shown(*a),
{
    let plain = decimal_text(a);
    with_commas(plain.as_str())
}

/// An integer written in decimal.
pub fn show_integer(n: i64) -> (r: String)
    ensures
        r@ == int_text(n as int),
{
    integer_text(n)
}

/// At most the first ten characters of a stake address.
pub open spec fn short_address(a: Seq<char>) -> Seq<char> {
    if a.len() <= 10 {
        a
    } else {
        a.subrange(0, 10)
    }
}

pub fn shorten_address(a: &str) -> (r: String)
    ensures
        r@ == short_address(a@),
{
    let n = a.unicode_len();
    if n <= 10 {
        String::from_str(a)
    } else {
        String::from_str(a.substring_char(0, 10))
    }
}

} // verus!
