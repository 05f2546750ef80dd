//! Barometric pressure and its rounding-on-serialize rule.
//!
//! A pressure is held as a raw count of millionths of an inch of mercury.
//! Equality and every internal computation use the raw value; only the
//! external representation rounds, to two decimal digits with ties away
//! from zero.

use vstd::prelude::*;

verus! {

/// The character of one decimal digit.
pub open spec fn digit_char(d: int) -> char {
    if d == 0 {
        '0'
    } else if d == 1 {
        '1'
    } else if d == 2 {
        '2'
    } else if d == 3 {
        '3'
    } else if d == 4 {
        '4'
    } else if d == 5 {
        '5'
    } else if d == 6 {
        '6'
    } else if d == 7 {
        '7'
    } else if d == 8 {
        '8'
    } else {
        '9'
    }
}

/// The decimal digits of a natural number, most significant first.
pub open spec fn spec_decimal(n: nat) -> Seq<char>
    decreases n,
{
    if n < 10 {
        seq![digit_char(n as int)]
    } else {
        spec_decimal(n / 10) + seq![digit_char((n % 10) as int)]
    }
}

/// The string for one decimal digit.
pub(crate) fn digit_to_string(d: u64) -> (r: String)
    requires
        d < 10,
    ensures
        r@ == seq![digit_char(d as int)],
{
    let r: String = match d {
        0 => "0".to_owned(),
        1 => "1".to_owned(),
        2 => "2".to_owned(),
        3 => "3".to_owned(),
        4 => "4".to_owned(),
        5 => "5".to_owned(),
        6 => "6".to_owned(),
        7 => "7".to_owned(),
        8 => "8".to_owned(),
        _ => "9".to_owned(),
    };
    proof {
        reveal_strlit("0");
        reveal_strlit("1");
        reveal_strlit("2");
        reveal_strlit("3");
        reveal_strlit("4");
        reveal_strlit("5");
        reveal_strlit("6");
        reveal_strlit("7");
        reveal_strlit("8");
        reveal_strlit("9");
        assert("0"@ =~= seq!['0']);
        assert("1"@ =~= seq!['1']);
        assert("2"@ =~= seq!['2']);
        assert("3"@ =~= seq!['3']);
        assert("4"@ =~= seq!['4']);
        assert("5"@ =~= seq!['5']);
        assert("6"@ =~= seq!['6']);
        assert("7"@ =~= seq!['7']);
        assert("8"@ =~= seq!['8']);
        assert("9"@ =~= seq!['9']);
    }
    r
}

/// Render a number in decimal.
pub fn u64_decimal(n: u64) -> (r: String)
    ensures
        r@ == spec_decimal(n as nat),
    decreases n,
{
    if n < 10 {
        digit_to_string(n)
    } else {
        let rest: String = u64_decimal(n / 10);
        let last: String = digit_to_string(n % 10);
        let r = rest.concat(last.as_str());
        proof {
            assert(r@ =~= spec_decimal(n as nat));
        }
        r
    }
}

/// A barometric pressure in inches of mercury, as a raw count of millionths
/// of an inch of mercury.
#[derive(Clone, Copy, Debug, PartialEq, Eq, Structural)]
pub struct InHg {
    /// Millionths of an inch of mercury.
    pub micro: i64,
}

impl InHg {
    /// The raw value rounded to hundredths of an inch of mercury, ties away
    /// from zero.
    pub open spec fn spec_rounded_hundredths(m: int) -> int {
        if m >= 0 {
            (m + 5000) / 10000
        } else {
            -(((-m) + 5000) / 10000)
        }
    }

    /// The external representation of a raw value: an optional minus sign,
    /// the whole hundredths in decimal, a point, and exactly two fraction
    /// digits, after rounding to hundredths with ties away from zero.
    pub open spec fn spec_serialized(m: int) -> Seq<char> {
        let h = Self::spec_rounded_hundredths(m);
        let a = if h >= 0 {
            h
        } else {
            -h
        };
        let sign: Seq<char> = if h < 0 {
            seq!['-']
        } else {
            Seq::empty()
        };
        sign + spec_decimal((a / 100) as nat) + seq![
            '.',
            digit_char((a / 10) % 10),
            digit_char(a % 10),
        ]
    }

    /// Wrap a raw count of millionths of an inch of mercury, unchanged.
    pub fn from_micro(micro: i64) -> (r: InHg)
        ensures
            r.micro == micro,
    {
        InHg { micro }
    }

    /// The raw value, unchanged.
    pub fn raw_micro(&self) -> (r: i64)
        ensures
            r == self.micro,
    {
        self.micro
    }

    /// The value rounded to hundredths of an inch of mercury, ties away
    /// from zero.
    pub fn rounded_hundredths(&self) -> (r: i64)
        ensures
            r == Self::spec_rounded_hundredths(self.micro as int),
    {
        if self.micro >= 0 {
            let mag: u64 = self.micro as u64;
            ((mag + 5000) / 10000) as i64
        } else {
            let neg: i128 = -(self.micro as i128);
            let mag: u64 = neg as u64;
            let h: u64 = (mag + 5000) / 10000;
            -(h as i64)
        }
    }

    /// The external representation: the value rounded to two decimal digits,
    /// ties away from zero, with exactly two fraction digits.
    pub fn serialize(&self) -> (r: String)
        ensures
            r@ == Self::spec_serialized(self.micro as int),
    {
        let h: i64 = self.rounded_hundredths();
        let a: u64 = if h >= 0 {
            h as u64
        } else {
            (-(h as i128)) as u64
        };
        let mut out: String = if h < 0 {
            "-".to_owned()
        } else {
            String::new()
        };
        let whole: String = u64_decimal(a / 100);
        out.append(whole.as_str());
        out.append(".");
        let tenths: String = digit_to_string((a / 10) % 10);
        out.append(tenths.as_str());
        let hundredths: String = digit_to_string(a % 10);
        out.append(hundredths.as_str());
        proof {
            reveal_strlit("-");
            reveal_strlit(".");
            assert("-"@ =~= seq!['-']);
            assert("."@ =~= seq!['.']);
            assert(out@ =~= Self::spec_serialized(self.micro as int));
        }
        out
    }
}

} // verus!
