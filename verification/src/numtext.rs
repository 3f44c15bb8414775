//! Decimal text of integers, both ways.

use vstd::prelude::*;

verus! {

/// The decimal digit character for `d` (0 to 9).
pub open spec fn digit_char(d: int) -> char {
    (('0' as u32) + d) as char
}

/// Decimal digits of the natural number `n`, without sign or leading zeros.
pub open spec fn decimal_digits(n: nat) -> Seq<char>
    decreases n,
{
    if n < 10 {
        seq![digit_char(n as int)]
    } else {
        decimal_digits(n / 10).push(digit_char((n % 10) as int))
    }
}

/// Decimal text of `x`: a minus sign for negative values, then the digits of its magnitude.
pub open spec fn decimal_text(x: int) -> Seq<char> {
    if x < 0 {
        seq!['-'] + decimal_digits((-x) as nat)
    } else {
        decimal_digits(x as nat)
    }
}

/// The one-character text of digit `d`.
fn digit_str(d: u64) -> (s: &'static str)
    requires
        d < 10,
    ensures
        s@ == seq![digit_char(d as int)],
{
    proof {
        reveal_strlit("0");
        reveal_strlit("1");
        reveal_strlit("2");
        reveal_strlit("3");
        reveal_strlit("4");
        reveal_strlit("5");
        reveal_strlit("6");
        reveal_strlit("7");
        reveal_strlit("8");
        reveal_strlit("9");
    }
    match d {
        0 => "0",
        1 => "1",
        2 => "2",
        3 => "3",
        4 => "4",
        5 => "5",
        6 => "6",
        7 => "7",
        8 => "8",
        _ => "9",
    }
}

/// The decimal digits of `n`.
fn digits_to_string(n: u64) -> (s: String)
    ensures
        s@ == decimal_digits(n as nat),
    decreases n,
{
    if n < 10 {
        String::from_str(digit_str(n))
    } else {
        let mut s = digits_to_string(n / 10);
        s.append(digit_str(n % 10));
        proof {
            assert(s@ =~= decimal_digits((n / 10) as nat).push(digit_char((n % 10) as int)));
        }
        s
    }
}

/// The decimal text of `x`, as `i64::to_string` writes it.
pub fn i64_to_string(x: i64) -> (s: String)
    ensures
        s@ == decimal_text(x as int),
{
    if x < 0 {
        let m: u64 = (0i128 - (x as i128)) as u64;
        proof {
            reveal_strlit("-");
        }
        let mut s = String::from_str("-");
        let d = digits_to_string(m);
        s.append(d.as_str());
        s
    } else {
        digits_to_string(x as u64)
    }
}

/// The decimal text of `x`, as `i32::to_string` writes it.
pub fn i32_to_string(x: i32) -> (s: String)
    ensures
        s@ == decimal_text(x as int),
{
    i64_to_string(x as i64)
}

/// Whether `s` has the form integer parsing accepts: an optional sign (`+` or `-`) and at least
/// one ASCII digit, nothing else.
pub open spec fn integer_shaped(s: Seq<char>) -> bool {
    let body = if s.len() > 0 && (s[0] == '+' || s[0] == '-') { s.subrange(1, s.len() as int) } else { s };
    &&& body.len() > 0
    &&& forall|i: int| 0 <= i < body.len() ==> '0' <= #[trigger] body[i] <= '9'
}

/// Name for what `str::parse::<i32>` gives for a text (`None` where it returns an error).
pub uninterp spec fn parsed_i32(s: Seq<char>) -> Option<i32>;

/// Wraps `str::parse::<i32>`, its error mapped to `None`. As its documentation says, a text that
/// is not an optional sign followed by digits is refused, and the decimal text of a value
/// parses to that value; what other texts give (leading zeros, a plus sign, overflow) is left
/// to the name.
#[verifier::external_body]
pub(crate) fn parse_i32(s: &str) -> (r: Option<i32>)
    ensures
        r == parsed_i32(s@),
        !integer_shaped(s@) ==> r is None,
        forall|v: i32| #[trigger] decimal_text(v as int) == s@ ==> r == Some(v),
{
    s.parse::<i32>().ok()
}

/// Name for what `str::parse::<i64>` gives for a text (`None` where it returns an error).
pub uninterp spec fn parsed_i64(s: Seq<char>) -> Option<i64>;

/// Wraps `str::parse::<i64>`, its error mapped to `None`. As its documentation says, a text that
/// is not an optional sign followed by digits is refused, and the decimal text of a value
/// parses to that value; what other texts give is left to the name.
#[verifier::external_body]
pub(crate) fn parse_i64(s: &str) -> (r: Option<i64>)
    ensures
        r == parsed_i64(s@),
        !integer_shaped(s@) ==> r is None,
        forall|v: i64| #[trigger] decimal_text(v as int) == s@ ==> r == Some(v),
{
    s.parse::<i64>().ok()
}

/// The value of a numeric text field, or `default` where it does not parse
/// (`s.parse::<i32>().unwrap_or(default)`).
pub open spec fn i32_or(s: Seq<char>, default: i32) -> i32 {
    match parsed_i32(s) {
        Some(v) => v,
        None => default,
    }
}

/// `s.parse::<i32>().unwrap_or(default)`: `default` for a text that is not an optional sign and
/// digits, the value for its decimal text.
pub fn parse_i32_or(s: &str, default: i32) -> (r: i32)
    ensures
        r == i32_or(s@, default),
        !integer_shaped(s@) ==> r == default,
        forall|v: i32| #[trigger] decimal_text(v as int) == s@ ==> r == v,
{
    match parse_i32(s) {
        Some(v) => v,
        None => default,
    }
}

} // verus!
