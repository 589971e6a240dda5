//! Decimal text of 64-bit integers, as the store transports them.
use vstd::prelude::*;

verus! {

/// The character of one decimal digit.
pub open spec fn digit_char(d: nat) -> char
    recommends
        d < 10,
{
    ((d + 48) as u8) as char
}

/// The value of a character as a decimal digit.
pub open spec fn digit_value(c: char) -> int {
    (c as u32) as int - 48
}

pub open spec fn is_digit(c: char) -> bool {
    '0' <= c && c <= '9'
}

/// A non-empty run of decimal digits.
pub open spec fn all_digits(s: Seq<char>) -> bool {
    s.len() > 0 && forall|i: int| 0 <= i < s.len() ==> is_digit(#[trigger] s[i])
}

/// Digits of a natural number, most significant first, without leading zeros.
pub open spec fn nat_digits(n: nat) -> Seq<char>
    decreases n,
{
    if n < 10 {
        seq![digit_char(n)]
    } else {
        nat_digits(n / 10).push(digit_char(n % 10))
    }
}

/// Decimal text of an integer: a minus sign for negative values, then its digits.
pub open spec fn decimal_of(x: int) -> Seq<char> {
    if x < 0 {
        seq!['-'] + nat_digits((-x) as nat)
    } else {
        nat_digits(x as nat)
    }
}

/// The number a run of digits denotes.
pub open spec fn digits_value(s: Seq<char>) -> int
    decreases s.len(),
{
    if s.len() == 0 {
        0
    } else {
        digits_value(s.drop_last()) * 10 + digit_value(s.last())
    }
}

pub open spec fn fits_i64(v: int) -> bool {
    i64::MIN <= v <= i64::MAX
}

/// What parsing text as an `i64` gives: an optional sign, at least one digit,
/// and a value in range.
pub open spec fn parsed_i64(s: Seq<char>) -> Option<i64> {
    if s.len() > 0 && s[0] == '-' && all_digits(s.drop_first())
        && fits_i64(-digits_value(s.drop_first())) {
        Some((-digits_value(s.drop_first())) as i64)
    } else if s.len() > 0 && s[0] == '+' && all_digits(s.drop_first())
        && fits_i64(digits_value(s.drop_first())) {
        Some(digits_value(s.drop_first()) as i64)
    } else if all_digits(s) && fits_i64(digits_value(s)) {
        Some(digits_value(s) as i64)
    } else {
        None
    }
}

proof fn lemma_digit_char(d: nat)
    requires
        d < 10,
    ensures
        is_digit(digit_char(d)),
        digit_value(digit_char(d)) == d,
{
    let b = (d + 48) as u8;
    assert(b as char as u32 == b as u32);
}

pub proof fn lemma_nat_digits(n: nat)
    ensures
        all_digits(nat_digits(n)),
        digits_value(nat_digits(n)) == n,
    decreases n,
{
    if n < 10 {
        let s = nat_digits(n);
        lemma_digit_char(n);
        assert(digits_value(s.drop_last()) == 0);
        assert(s.last() == digit_char(n));
    } else {
        lemma_nat_digits(n / 10);
        let s = nat_digits(n);
        let d = (n % 10) as nat;
        assert(s.drop_last() =~= nat_digits(n / 10));
        lemma_digit_char(d);
        assert(s.last() == digit_char(d));
        assert((n / 10) * 10 + n % 10 == n) by (nonlinear_arith);
        assert(is_digit(s.last()));
        assert forall|i: int| 0 <= i < s.len() implies is_digit(#[trigger] s[i]) by {
            if i < s.len() - 1 {
                assert(s[i] == nat_digits(n / 10)[i]);
            }
        }
    }
}

/// Parsing the decimal text of an `i64` gives that `i64` back.
pub proof fn lemma_parse_decimal(x: i64)
    ensures
        parsed_i64(decimal_of(x as int)) == Some(x),
{
    let s = decimal_of(x as int);
    if x < 0 {
        let m = (-(x as int)) as nat;
        lemma_nat_digits(m);
        assert(s.drop_first() =~= nat_digits(m));
        assert(s[0] == '-');
    } else {
        lemma_nat_digits(x as nat);
        assert(is_digit(s[0]));
    }
}

/// Relies on the standard `Display` of `i64` (through `ToString`): a minus sign
/// for negative values, then the digits without leading zeros.
#[verifier::external_body]
pub(crate) fn i64_text(v: i64) -> (r: String)
    ensures
        r@ == decimal_of(v as int),
{
    v.to_string()
}

/// Relies on `str::parse::<i64>` (`i64::from_str`): an optional `+` or `-`,
/// then one or more ASCII digits whose value fits in an `i64`; anything else
/// is an error.
#[verifier::external_body]
pub(crate) fn parse_i64(s: &str) -> (r: Option<i64>)
    ensures
        r == parsed_i64(s@),
{
    s.parse::<i64>().ok()
}

} // verus!
