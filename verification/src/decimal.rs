//! Rendering an integer as its decimal string, as the value display of
//! the counter shows it.

use vstd::prelude::*;
use vstd::string::StringExecFns;

verus! {

/// The character for one decimal digit.
pub open spec fn digit_char(d: nat) -> char {
    if d == 0 {
        '0'
    } else if d == 1 {
        '1'
    } else if d == 2 {
        '2'
    } else if d == 3 {
        '3'
    } else if d == 4 {
        '4'
    } else if d == 5 {
        '5'
    } else if d == 6 {
        '6'
    } else if d == 7 {
        '7'
    } else if d == 8 {
        '8'
    } else {
        '9'
    }
}

/// The decimal digits of a nonnegative integer, most significant first:
/// no sign, no leading zero, a single '0' for zero.
pub open spec fn decimal_digits(n: nat) -> Seq<char>
    decreases n,
{
    if n < 10 {
        seq![digit_char(n)]
    } else {
        decimal_digits(n / 10) + seq![digit_char(n % 10)]
    }
}

/// The decimal rendering of an integer: a leading '-' for a negative
/// value, then its digits.
pub open spec fn decimal_of(v: int) -> Seq<char> {
    if v < 0 {
        seq!['-'] + decimal_digits((-v) as nat)
    } else {
        decimal_digits(v as nat)
    }
}

fn digit_char_of(d: u32) -> (c: char)
    requires
        d < 10,
    ensures
        c == digit_char(d as nat),
{
    if d == 0 {
        '0'
    } else if d == 1 {
        '1'
    } else if d == 2 {
        '2'
    } else if d == 3 {
        '3'
    } else if d == 4 {
        '4'
    } else if d == 5 {
        '5'
    } else if d == 6 {
        '6'
    } else if d == 7 {
        '7'
    } else if d == 8 {
        '8'
    } else {
        '9'
    }
}

/// Relies on `String::push`: appends the given character to the end of
/// the string.
#[verifier::external_body]
fn push_char(s: &mut String, c: char)
    ensures
        final(s)@ == old(s)@ + seq![c],
{
    s.push(c);
}

fn u32_decimal(n: u32) -> (s: String)
    ensures
        s@ == decimal_digits(n as nat),
{
    let mut low: Vec<char> = Vec::new();
    let mut m: u32 = n;
    proof {
        assert(decimal_digits(n as nat) =~= decimal_digits(m as nat) + low@.reverse());
    }
    while m >= 10
        invariant
            decimal_digits(n as nat) == decimal_digits(m as nat) + low@.reverse(),
        decreases m,
    {
        let ghost prev = low@;
        let c = digit_char_of(m % 10);
        low.push(c);
        proof {
            assert(low@.reverse() =~= seq![c] + prev.reverse());
            assert(decimal_digits(m as nat) == decimal_digits((m / 10) as nat) + seq![
                digit_char((m % 10) as nat),
            ]);
            assert(decimal_digits(n as nat) =~= decimal_digits((m / 10) as nat) + low@.reverse());
        }
        m = m / 10;
    }
    let mut s = String::new();
    push_char(&mut s, digit_char_of(m));
    proof {
        assert(s@ + low@.reverse() =~= decimal_digits(n as nat));
    }
    while low.len() > 0
        invariant
            s@ + low@.reverse() == decimal_digits(n as nat),
        decreases low@.len(),
    {
        let ghost prev = low@;
        let ghost prev_s = s@;
        let c = low.pop().unwrap();
        push_char(&mut s, c);
        proof {
            assert(prev.reverse() =~= seq![c] + low@.reverse());
            assert(s@ + low@.reverse() =~= prev_s + prev.reverse());
        }
    }
    proof {
        assert(s@ =~= decimal_digits(n as nat));
    }
    s
}

/// The displayed value, written in decimal exactly as `decimal_of`
/// describes it.
pub fn i32_to_decimal(v: i32) -> (s: String)
    ensures
        s@ == decimal_of(v as int),
{
    if v >= 0 {
        u32_decimal(v as u32)
    } else {
        let wide: i64 = v as i64;
        let mag: u32 = (-wide) as u32;
        let mut s = String::new();
        push_char(&mut s, '-');
        let digits = u32_decimal(mag);
        s.append(digits.as_str());
        proof {
            assert(s@ =~= decimal_of(v as int));
        }
        s
    }
}

} // verus!
