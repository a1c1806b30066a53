use vstd::prelude::*;
use vstd::string::StringExecFns;

verus! {

/// `c` is one of the ASCII digits '0' to '9'.
pub open spec fn is_digit(c: char) -> bool {
    '0' <= c && c <= '9'
}

/// `d` is one or more decimal digits.
pub open spec fn all_digits(d: Seq<char>) -> bool {
    d.len() > 0 && forall|i: int| 0 <= i < d.len() ==> is_digit(#[trigger] d[i])
}

/// The number that the decimal digits `d` write, most significant first.
pub open spec fn digits_value(d: Seq<char>) -> int
    decreases d.len(),
{
    if d.len() == 0 {
        0
    } else {
        digits_value(d.drop_last()) * 10 + ((d.last() as u32) - ('0' as u32))
    }
}

/// The `i32` that `s` writes in decimal: an optional '+' or '-' followed by
/// one or more digits, with a value in range; `None` for any other text.
pub open spec fn parsed_i32(s: Seq<char>) -> Option<i32> {
    let signed = s.len() > 0 && (s[0] == '+' || s[0] == '-');
    let digits = if signed { s.drop_first() } else { s };
    let magnitude = digits_value(digits);
    let value = if signed && s[0] == '-' { -magnitude } else { magnitude };
    if all_digits(digits) && i32::MIN <= value <= i32::MAX {
        Some(value as i32)
    } else {
        None
    }
}

/// Relies on `str::parse::<i32>`, that is `i32`'s `FromStr`: it accepts an
/// optional '+' or '-' and then one or more decimal digits whose value fits in
/// an `i32`, and returns an error for any other text.
#[verifier::external_body]
fn parse_i32(s: &str) -> (r: Option<i32>)
    ensures
        r == parsed_i32(s@),
{
    s.parse::<i32>().ok()
}

/// The absolute value of `x`.
pub open spec fn abs(x: int) -> int {
    if x < 0 {
        -x
    } else {
        x
    }
}

/// `a` divided by `b`, rounded toward zero.
pub open spec fn quotient(a: int, b: int) -> int {
    let q = abs(a) / abs(b);
    if (a < 0) == (b < 0) { q } else { -q }
}

proof fn lemma_quotient_in_range(a: i32, d: i32)
    requires
        d != 0,
        !(a == i32::MIN && d == -1),
    ensures
        a.checked_div(d) == Some(quotient(a as int, d as int) as i32),
        i32::MIN <= quotient(a as int, d as int) <= i32::MAX,
{
    let (x, y) = (abs(a as int), abs(d as int));
    assert(0 <= x / y <= x) by (nonlinear_arith)
        requires
            x >= 0,
            y >= 1,
    ;
    if y >= 2 {
        assert(x / y <= x / 2) by (nonlinear_arith)
            requires
                x >= 0,
                y >= 2,
        ;
    } else {
        assert(x / y == x) by (nonlinear_arith)
            requires
                y == 1,
        ;
    }
}

/// Reads two decimal integers and divides the first by the second, rounding
/// toward zero. Text that is not an `i32` gives "Parse Error"; a divisor of
/// zero gives "Division by Zero".
pub fn parse_and_divide(s1: &str, s2: &str) -> (r: Result<i32, String>)
    requires
        !(parsed_i32(s1@) == Some(i32::MIN) && parsed_i32(s2@) == Some(-1i32)),
    ensures
        (parsed_i32(s1@) is None || parsed_i32(s2@) is None) ==> r is Err && r->Err_0@
            == "Parse Error"@,
        (parsed_i32(s1@) is Some && parsed_i32(s2@) == Some(0i32)) ==> r is Err && r->Err_0@
            == "Division by Zero"@,
        (parsed_i32(s1@) is Some && parsed_i32(s2@) is Some && parsed_i32(s2@) != Some(0i32))
            ==> r == Ok::<i32, String>(
            quotient(parsed_i32(s1@)->Some_0 as int, parsed_i32(s2@)->Some_0 as int) as i32,
        ),
{
    let x = match parse_i32(s1) {
        Some(x) => x,
        None => {
            return Err(String::from_str("Parse Error"));
        },
    };
    let y = match parse_i32(s2) {
        Some(y) => y,
        None => {
            return Err(String::from_str("Parse Error"));
        },
    };
    proof {
        if y != 0 {
            lemma_quotient_in_range(x, y);
        }
    }
    match x.checked_div(y) {
        None => Err(String::from_str("Division by Zero")),
        Some(q) => Ok(q),
    }
}

} // verus!
