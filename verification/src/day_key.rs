//! The two-digit day key.
//!
//! Per-day tables are keyed by an integer day inside the model; the key
//! becomes a string only at the serialization boundary, as the day's decimal
//! rendering zero-padded on the left to two characters. On the day-of-month
//! domain the zero-padding makes a lexicographically sorted view of the
//! rendered keys agree with the numeric day order.

use vstd::prelude::*;

use crate::pressure::digit_char;
use crate::pressure::spec_decimal;
use crate::pressure::u64_decimal;

verus! {

/// The rendered key of a day number: its decimal digits, with a leading
/// zero for the single-digit days and a leading minus sign for the negative
/// ones.
pub open spec fn spec_day_key(d: int) -> Seq<char> {
    if 0 <= d < 10 {
        seq!['0'] + spec_decimal(d as nat)
    } else if d >= 10 {
        spec_decimal(d as nat)
    } else {
        seq!['-'] + spec_decimal((-d) as nat)
    }
}

/// Render a day number as its key.
pub fn day_key(day: i32) -> (r: String)
    ensures
        r@ == spec_day_key(day as int),
{
    if day >= 10 {
        u64_decimal(day as u64)
    } else if day >= 0 {
        let digits = u64_decimal(day as u64);
        let r = "0".to_owned().concat(digits.as_str());
        proof {
            reveal_strlit("0");
            assert("0"@ =~= seq!['0']);
        }
        r
    } else {
        let mag: u64 = (-(day as i64)) as u64;
        let digits = u64_decimal(mag);
        let r = "-".to_owned().concat(digits.as_str());
        proof {
            reveal_strlit("-");
            assert("-"@ =~= seq!['-']);
        }
        r
    }
}

/// Strict lexicographic order on strings, by code point.
pub open spec fn lex_lt(a: Seq<char>, b: Seq<char>) -> bool
    decreases a.len(),
{
    if b.len() == 0 {
        false
    } else if a.len() == 0 {
        true
    } else if a[0] != b[0] {
        (a[0] as u32) < (b[0] as u32)
    } else {
        lex_lt(a.drop_first(), b.drop_first())
    }
}

/// On the day-of-month domain, the rendered keys are all two characters
/// long and sort lexicographically exactly as the days sort numerically.
pub proof fn lemma_day_key_order(a: int, b: int)
    requires
        1 <= a < b <= 31,
    ensures
        spec_day_key(a).len() == 2,
        spec_day_key(b).len() == 2,
        lex_lt(spec_day_key(a), spec_day_key(b)),
{
    let ka = spec_day_key(a);
    let kb = spec_day_key(b);
    lemma_day_key_digits(a);
    lemma_day_key_digits(b);
    if ka[0] == kb[0] {
        assert(a / 10 == b / 10);
        assert(a % 10 < b % 10);
        assert((ka[1] as u32) < (kb[1] as u32));
        assert(ka[1] != kb[1]);
        assert(ka.drop_first() =~= seq![ka[1]]);
        assert(kb.drop_first() =~= seq![kb[1]]);
        assert(lex_lt(ka.drop_first(), kb.drop_first()));
        assert(lex_lt(ka, kb));
    } else {
        assert(a / 10 < b / 10);
        assert((ka[0] as u32) < (kb[0] as u32));
        assert(lex_lt(ka, kb));
    }
}

/// A day-of-month key is its tens digit then its ones digit.
proof fn lemma_day_key_digits(d: int)
    requires
        1 <= d <= 31,
    ensures
        spec_day_key(d) =~= seq![digit_char(d / 10), digit_char(d % 10)],
{
    if d < 10 {
        assert(spec_decimal(d as nat) =~= seq![digit_char(d)]);
    } else {
        assert(spec_decimal(d as nat) =~= spec_decimal((d as nat) / 10) + seq![
            digit_char(d % 10),
        ]);
        assert(spec_decimal((d as nat) / 10) =~= seq![digit_char(d / 10)]);
    }
}

} // verus!
