//! Percent changes in fixed point, and their two-decimal rendering.
//!
//! A change is a whole number of hundred-millionths of a percent, which is
//! the precision at which the market-data provider quotes. Rendering rounds
//! to hundredths of a percent, ties to the even hundredth, and keeps the
//! minus sign of a negative change that rounds to zero.

use vstd::prelude::*;
use vstd::string::*;

verus! {

/// How many units make one hundredth of a percent.
pub const UNITS_PER_HUNDREDTH: u64 = 1_000_000;

/// A percent change held in hundred-millionths of a percent:
/// `-305_000_000` is -3.05 %.
#[derive(Clone, Copy, Debug, PartialEq, Eq, Structural)]
pub struct Percent {
    pub units: i64,
}

/// The character of a decimal digit `d` in `0..=9`.
pub open spec fn digit_char(d: int) -> char {
    if d == 0 {
        '0'
    } else if d == 1 {
        '1'
    } else if d == 2 {
        '2'
    } else if d == 3 {
        '3'
    } else if d == 4 {
        '4'
    } else if d == 5 {
        '5'
    } else if d == 6 {
        '6'
    } else if d == 7 {
        '7'
    } else if d == 8 {
        '8'
    } else {
        '9'
    }
}

/// The decimal numeral of `n`, most significant digit first, without
/// leading zeros (`0` is written "0").
pub open spec fn decimal(n: nat) -> Seq<char>
    decreases n,
{
    if n < 10 {
        seq![digit_char(n as int)]
    } else {
        decimal(n / 10).push(digit_char((n % 10) as int))
    }
}

/// The magnitude of a signed value.
pub open spec fn magnitude(h: int) -> nat {
    if h < 0 {
        (-h) as nat
    } else {
        h as nat
    }
}

/// A magnitude of `m` units rounded to whole hundredths of a percent, a
/// tie going to the even hundredth.
pub open spec fn rounded_hundredths(m: nat) -> nat {
    let whole = m / (UNITS_PER_HUNDREDTH as nat);
    let rest = m % (UNITS_PER_HUNDREDTH as nat);
    if 2 * rest > UNITS_PER_HUNDREDTH || (2 * rest == UNITS_PER_HUNDREDTH && whole % 2 == 1) {
        whole + 1
    } else {
        whole
    }
}

/// A change of `units` units written with exactly two decimals: a minus
/// sign where the change is negative, the whole part, a point, two digits.
pub open spec fn two_decimals(units: int) -> Seq<char> {
    let h = rounded_hundredths(magnitude(units));
    let sign = if units < 0 {
        seq!['-']
    } else {
        Seq::<char>::empty()
    };
    sign + decimal(h / 100) + seq!['.', digit_char((h / 10 % 10) as int), digit_char((h % 10) as int)]
}

/// The one-character text of a decimal digit.
fn digit_text(d: u64) -> (text: &'static str)
    requires
        d < 10,
    ensures
        text@ == seq![digit_char(d as int)],
{
    proof {
        reveal_strlit("0");
        reveal_strlit("1");
        reveal_strlit("2");
        reveal_strlit("3");
        reveal_strlit("4");
        reveal_strlit("5");
        reveal_strlit("6");
        reveal_strlit("7");
        reveal_strlit("8");
        reveal_strlit("9");
    }
    let text = if d == 0 {
        "0"
    } else if d == 1 {
        "1"
    } else if d == 2 {
        "2"
    } else if d == 3 {
        "3"
    } else if d == 4 {
        "4"
    } else if d == 5 {
        "5"
    } else if d == 6 {
        "6"
    } else if d == 7 {
        "7"
    } else if d == 8 {
        "8"
    } else {
        "9"
    };
    assert(text@ =~= seq![digit_char(d as int)]);
    text
}

/// Appends the decimal numeral of `n` to `out`.
pub fn push_decimal(out: &mut String, n: u64)
    ensures
        final(out)@ == old(out)@ + decimal(n as nat),
    decreases n,
{
    if n >= 10 {
        push_decimal(out, n / 10);
    }
    out.append(digit_text(n % 10));
    assert(out@ =~= old(out)@ + decimal(n as nat));
}

impl Percent {
    /// The change of `units` hundred-millionths of a percent.
    pub fn from_units(units: i64) -> (p: Percent)
        ensures
            p.units == units,
    {
        Percent { units }
    }

    /// The magnitude of the change, in units.
    pub fn abs_units(&self) -> (m: u64)
        ensures
            m == magnitude(self.units as int),
    {
        if self.units >= 0 {
            self.units as u64
        } else {
            let up: i64 = self.units + 1;
            let flipped: i64 = -up;
            flipped as u64 + 1
        }
    }

    /// The magnitude of the change rounded to hundredths of a percent.
    pub fn abs_hundredths(&self) -> (h: u64)
        ensures
            h == rounded_hundredths(magnitude(self.units as int)),
    {
        let m: u64 = self.abs_units();
        let whole: u64 = m / UNITS_PER_HUNDREDTH;
        let rest: u64 = m % UNITS_PER_HUNDREDTH;
        if 2 * rest > UNITS_PER_HUNDREDTH || (2 * rest == UNITS_PER_HUNDREDTH && whole % 2 == 1) {
            whole + 1
        } else {
            whole
        }
    }

    /// Appends the change, written with two decimals, to `out`.
    pub fn push_to(&self, out: &mut String)
        ensures
            final(out)@ == old(out)@ + two_decimals(self.units as int),
    {
        let h: u64 = self.abs_hundredths();
        if self.units < 0 {
            out.append("-");
        }
        push_decimal(out, h / 100);
        out.append(".");
        out.append(digit_text(h / 10 % 10));
        out.append(digit_text(h % 10));
        proof {
            reveal_strlit("-");
            reveal_strlit(".");
            assert(out@ =~= old(out)@ + two_decimals(self.units as int));
        }
    }

    /// The change written with two decimals, as in `-3.05`.
    pub fn render(&self) -> (text: String)
        ensures
            text@ == two_decimals(self.units as int),
    {
        let mut text = String::new();
        self.push_to(&mut text);
        text
    }
}

} // verus!
