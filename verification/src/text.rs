use vstd::prelude::*;

verus! {

/// The decimal digit character for one digit value.
pub open spec fn spec_digit_char(d: int) -> char {
    if d == 0 {
        '0'
    } else if d == 1 {
        '1'
    } else if d == 2 {
        '2'
    } else if d == 3 {
        '3'
    } else if d == 4 {
        '4'
    } else if d == 5 {
        '5'
    } else if d == 6 {
        '6'
    } else if d == 7 {
        '7'
    } else if d == 8 {
        '8'
    } else {
        '9'
    }
}

/// The decimal digits of a nonnegative number, most significant first.
pub open spec fn spec_decimal_of_nat(n: int) -> Seq<char>
    decreases n,
{
    if n < 10 {
        seq![spec_digit_char(n)]
    } else {
        spec_decimal_of_nat(n / 10) + seq![spec_digit_char(n % 10)]
    }
}

/// The decimal rendering of an integer: the digits, with a leading minus
/// sign when the number is negative.
pub open spec fn spec_decimal(n: int) -> Seq<char> {
    if n < 0 {
        seq!['-'] + spec_decimal_of_nat(-n)
    } else {
        spec_decimal_of_nat(n)
    }
}

/// One digit as text.
fn digit_str(d: u64) -> (s: &'static str)
    requires
        d < 10,
    ensures
        s@ == seq![spec_digit_char(d as int)],
{
    proof {
        reveal_strlit("0");
        reveal_strlit("1");
        reveal_strlit("2");
        reveal_strlit("3");
        reveal_strlit("4");
        reveal_strlit("5");
        reveal_strlit("6");
        reveal_strlit("7");
        reveal_strlit("8");
        reveal_strlit("9");
    }
    if d == 0 {
        "0"
    } else if d == 1 {
        "1"
    } else if d == 2 {
        "2"
    } else if d == 3 {
        "3"
    } else if d == 4 {
        "4"
    } else if d == 5 {
        "5"
    } else if d == 6 {
        "6"
    } else if d == 7 {
        "7"
    } else if d == 8 {
        "8"
    } else {
        "9"
    }
}

/// Renders a nonnegative number in decimal.
pub fn decimal_of_nat(n: u64) -> (s: String)
    ensures
        s@ == spec_decimal_of_nat(n as int),
    decreases n,
{
    if n < 10 {
        digit_str(n).to_owned()
    } else {
        let rest = decimal_of_nat(n / 10);
        rest.concat(digit_str(n % 10))
    }
}

/// Renders an integer in decimal, with a minus sign when negative.
pub fn decimal_i32(n: i32) -> (s: String)
    ensures
        s@ == spec_decimal(n as int),
{
    if n < 0 {
        let m = -(n as i64);
        proof {
            reveal_strlit("-");
            assert("-"@ =~= seq!['-']);
        }
        "-".to_owned().concat(decimal_of_nat(m as u64).as_str())
    } else {
        decimal_of_nat(n as u64)
    }
}

} // verus!
