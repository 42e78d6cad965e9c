//! Decimal text of `i32` values: how std writes one and how std reads one back.
use vstd::prelude::*;

verus! {

/// The character of decimal digit `d`.
pub open spec fn digit_char(d: int) -> char
    recommends
        0 <= d < 10,
{
    (d + 48) as char
}

/// A decimal digit, `'0'` to `'9'`.
pub open spec fn is_digit(c: char) -> bool {
    48 <= (c as int) <= 57
}

/// The digits of `n` in base ten, most significant first, with no leading
/// zero (`0` is written as the single digit `0`).
pub open spec fn nat_digits(n: nat) -> Seq<char>
    decreases n,
{
    if n < 10 {
        seq![digit_char(n as int)]
    } else {
        nat_digits(n / 10).push(digit_char((n % 10) as int))
    }
}

/// How `i` is written in decimal: a minus sign for a negative value, then the
/// digits of its magnitude.
pub open spec fn decimal(i: int) -> Seq<char> {
    if i < 0 {
        seq!['-'] + nat_digits((-i) as nat)
    } else {
        nat_digits(i as nat)
    }
}

/// The value of a string of decimal digits, most significant first.
pub open spec fn digits_value(s: Seq<char>) -> int
    decreases s.len(),
{
    if s.len() == 0 {
        0
    } else {
        digits_value(s.drop_last()) * 10 + ((s.last() as int) - 48)
    }
}

/// What `str::parse::<i32>` reads from `s`: an optional `+` or `-` sign
/// followed by at least one decimal digit and nothing else, whose value fits
/// in an `i32`; anything else is an error (`None`).
pub open spec fn parsed_i32(s: Seq<char>) -> Option<i32> {
    let (negative, body) = if s.len() > 0 && s[0] == '-' {
        (true, s.drop_first())
    } else if s.len() > 0 && s[0] == '+' {
        (false, s.drop_first())
    } else {
        (false, s)
    };
    let magnitude = digits_value(body);
    let value = if negative { -magnitude } else { magnitude };
    if body.len() > 0 && (forall|k: int| 0 <= k < body.len() ==> is_digit(#[trigger] body[k]))
        && i32::MIN <= value <= i32::MAX {
        Some(value as i32)
    } else {
        None
    }
}

/// Calls std's `i32::to_string` (the `Display` implementation of `i32`).
/// Trusted claim: the text is the decimal digits of the magnitude of `i`,
/// without leading zeros, preceded by `-` when `i` is negative.
#[verifier::external_body]
pub(crate) fn i32_to_decimal(i: i32) -> (s: String)
    ensures
        s@ == decimal(i as int),
{
    i.to_string()
}

/// Calls std's `str::parse::<i32>` (the `FromStr` implementation of `i32`)
/// and keeps the value it reads. Trusted claim, as std documents it: the text
/// must be an optional `+` or `-` sign followed by only the digits `0` to `9`,
/// at least one of them, with a value that fits in an `i32`; otherwise the
/// call reports an error, which is `None` here.
#[verifier::external_body]
pub(crate) fn parse_i32(s: &str) -> (r: Option<i32>)
    ensures
        r == parsed_i32(s@),
{
    s.parse::<i32>().ok()
}

proof fn lemma_nat_digits(n: nat)
    ensures
        nat_digits(n).len() > 0,
        forall|k: int| 0 <= k < nat_digits(n).len() ==> is_digit(#[trigger] nat_digits(n)[k]),
        digits_value(nat_digits(n)) == n,
    decreases n,
{
    if n < 10 {
        let s = nat_digits(n);
        assert(digit_char(n as int) as int == n + 48);
        assert(s.drop_last() =~= Seq::<char>::empty());
        assert(digits_value(s) == digits_value(s.drop_last()) * 10 + ((s.last() as int) - 48));
    } else {
        lemma_nat_digits(n / 10);
        let s = nat_digits(n);
        let d = (n % 10) as int;
        assert(digit_char(d) as int == d + 48);
        assert(s.drop_last() =~= nat_digits(n / 10));
        assert(s.last() == digit_char(d));
        assert(digits_value(s) == digits_value(s.drop_last()) * 10 + ((s.last() as int) - 48));
        assert((n / 10) * 10 + n % 10 == n);
    }
}

/// Reading back what was written in decimal gives the value written.
pub proof fn lemma_parse_decimal(i: i32)
    ensures
        parsed_i32(decimal(i as int)) == Some(i),
{
    if i < 0 {
        let m = (-i) as nat;
        lemma_nat_digits(m);
        let s = decimal(i as int);
        assert(s.drop_first() =~= nat_digits(m));
        assert(s[0] == '-');
    } else {
        lemma_nat_digits(i as nat);
        let s = nat_digits(i as nat);
        assert(is_digit(s[0]));
    }
}

} // verus!
