//! Decimal rendering of integers, used to build error messages.

use vstd::prelude::*;
use vstd::string::StringExecFns;

verus! {

/// The character of a decimal digit `d` (`0 <= d < 10`).
pub open spec fn digit_char(d: nat) -> char {
    (48 + d) as char
}

/// The decimal digits of a natural number, most significant first,
/// without leading zeros (zero is written `0`).
pub open spec fn nat_digits(n: nat) -> Seq<char>
    decreases n,
{
    if n < 10 {
        seq![digit_char(n)]
    } else {
        nat_digits(n / 10).push(digit_char(n % 10))
    }
}

/// The decimal rendering of an integer, as `{}` formats it: a leading
/// `-` for negative values, then the digits of the magnitude.
pub open spec fn int_decimal(n: int) -> Seq<char> {
    if n < 0 {
        seq!['-'] + nat_digits((-n) as nat)
    } else {
        nat_digits(n as nat)
    }
}

fn digit_str(d: u64) -> (s: &'static str)
    requires
        d < 10,
    ensures
        s@ == seq![digit_char(d as nat)],
{
    match d {
        0 => { proof { reveal_strlit("0"); } "0" },
        1 => { proof { reveal_strlit("1"); } "1" },
        2 => { proof { reveal_strlit("2"); } "2" },
        3 => { proof { reveal_strlit("3"); } "3" },
        4 => { proof { reveal_strlit("4"); } "4" },
        5 => { proof { reveal_strlit("5"); } "5" },
        6 => { proof { reveal_strlit("6"); } "6" },
        7 => { proof { reveal_strlit("7"); } "7" },
        8 => { proof { reveal_strlit("8"); } "8" },
        _ => { proof { reveal_strlit("9"); } "9" },
    }
}

fn push_digits(s: &mut String, n: u64)
    ensures
        final(s)@ == old(s)@ + nat_digits(n as nat),
    decreases n,
{
    if n >= 10 {
        push_digits(s, n / 10);
    }
    s.append(digit_str(n % 10));
    proof {
        assert(old(s)@ + nat_digits(n as nat) =~= (if n >= 10 {
            old(s)@ + nat_digits((n / 10) as nat)
        } else {
            old(s)@
        }) + seq![digit_char((n % 10) as nat)]);
    }
}

/// Appends the decimal rendering of `n` to `s`.
pub fn push_decimal(s: &mut String, n: i64)
    ensures
        final(s)@ == old(s)@ + int_decimal(n as int),
{
    if n < 0 {
        proof { reveal_strlit("-"); }
        s.append("-");
        let magnitude: u64 = (-(n as i128)) as u64;
        push_digits(s, magnitude);
        assert(old(s)@ + int_decimal(n as int) =~= old(s)@ + seq!['-'] + nat_digits(
            magnitude as nat,
        ));
    } else {
        push_digits(s, n as u64);
    }
}

/// The decimal rendering of `n`, as `format!("{}", n)` gives it.
pub fn decimal(n: i64) -> (s: String)
    ensures
        s@ == int_decimal(n as int),
{
    let mut s = String::new();
    push_decimal(&mut s, n);
    assert(s@ =~= int_decimal(n as int));
    s
}

/// `prefix` followed by the decimal rendering of `n`.
pub fn with_number(prefix: &str, n: i64) -> (s: String)
    ensures
        s@ == prefix@ + int_decimal(n as int),
{
    let mut s = String::from_str(prefix);
    push_decimal(&mut s, n);
    s
}

/// `prefix`, the decimal rendering of `ret`, then ` (errno <errno>)`.
pub fn with_ret_and_errno(prefix: &str, ret: i32, errno: i32) -> (s: String)
    ensures
        s@ == prefix@ + int_decimal(ret as int) + " (errno "@ + int_decimal(errno as int) + ")"@,
{
    let mut s = String::from_str(prefix);
    push_decimal(&mut s, ret as i64);
    s.append(" (errno ");
    push_decimal(&mut s, errno as i64);
    s.append(")");
    s
}

} // verus!
