//! The eight primary and intermediate moon phases.
//!
//! A smaller companion to the full lunar-phase table: the four primary
//! phases and the four intermediate ones, with numeric codes `0` through
//! `7` and round-trippable display labels.

use vstd::prelude::*;

use crate::lunar_phase::PhaseError;
use crate::text::str_eq;

verus! {

/// One of the eight moon phases.
#[derive(Clone, Copy, Debug, PartialEq, Eq, Structural)]
pub enum MoonPhase {
    New,
    WaxingCrescent,
    FirstQuarter,
    WaxingGibbous,
    Full,
    WaningGibbous,
    LastQuarter,
    WaningCrescent,
}

impl MoonPhase {
    /// The stable numeric code of this phase.
    pub open spec fn code(self) -> u8 {
        match self {
            MoonPhase::New => 0,
            MoonPhase::WaxingCrescent => 1,
            MoonPhase::FirstQuarter => 2,
            MoonPhase::WaxingGibbous => 3,
            MoonPhase::Full => 4,
            MoonPhase::WaningGibbous => 5,
            MoonPhase::LastQuarter => 6,
            MoonPhase::WaningCrescent => 7,
        }
    }

    /// The phase a numeric code names, or `None` for a code outside `0..=7`.
    pub open spec fn spec_decode(code: u8) -> Option<MoonPhase> {
        if code == 0 {
            Some(MoonPhase::New)
        }
 else if code == 1 {
            Some(MoonPhase::WaxingCrescent)
        }
 else if code == 2 {
            Some(MoonPhase::FirstQuarter)
        }
 else if code == 3 {
            Some(MoonPhase::WaxingGibbous)
        }
 else if code == 4 {
            Some(MoonPhase::Full)
        }
 else if code == 5 {
            Some(MoonPhase::WaningGibbous)
        }
 else if code == 6 {
            Some(MoonPhase::LastQuarter)
        }
 else if code == 7 {
            Some(MoonPhase::WaningCrescent)
        } else {
            None
        }
    }

    /// The display label of this phase.
    pub open spec fn spec_label(self) -> Seq<char> {
        match self {
            MoonPhase::New => "New"@,
            MoonPhase::WaxingCrescent => "Waxing Crescent"@,
            MoonPhase::FirstQuarter => "First Quarter"@,
            MoonPhase::WaxingGibbous => "Waxing Gibbous"@,
            MoonPhase::Full => "Full"@,
            MoonPhase::WaningGibbous => "Waning Gibbous"@,
            MoonPhase::LastQuarter => "Last Quarter"@,
            MoonPhase::WaningCrescent => "Waning Crescent"@,
        }
    }

    /// The phase a label names, or `None` for any other string.
    pub open spec fn spec_parse(s: Seq<char>) -> Option<MoonPhase> {
        if s == "New"@ {
            Some(MoonPhase::New)
        }
 else if s == "Waxing Crescent"@ {
            Some(MoonPhase::WaxingCrescent)
        }
 else if s == "First Quarter"@ {
            Some(MoonPhase::FirstQuarter)
        }
 else if s == "Waxing Gibbous"@ {
            Some(MoonPhase::WaxingGibbous)
        }
 else if s == "Full"@ {
            Some(MoonPhase::Full)
        }
 else if s == "Waning Gibbous"@ {
            Some(MoonPhase::WaningGibbous)
        }
 else if s == "Last Quarter"@ {
            Some(MoonPhase::LastQuarter)
        }
 else if s == "Waning Crescent"@ {
            Some(MoonPhase::WaningCrescent)
        } else {
            None
        }
    }

    /// Encode this phase as its numeric code.
    pub fn encode(&self) -> (r: u8)
        ensures
            r == self.code(),
    {
        match self {
            MoonPhase::New => 0,
            MoonPhase::WaxingCrescent => 1,
            MoonPhase::FirstQuarter => 2,
            MoonPhase::WaxingGibbous => 3,
            MoonPhase::Full => 4,
            MoonPhase::WaningGibbous => 5,
            MoonPhase::LastQuarter => 6,
            MoonPhase::WaningCrescent => 7,
        }
    }

    /// Decode a numeric code. A code outside `0..=7` is rejected.
    pub fn decode(code: u8) -> (r: Result<MoonPhase, PhaseError>)
        ensures
            r is Ok <==> code <= 7,
            r is Ok ==> Self::spec_decode(code) == Some(r->Ok_0),
            r is Err ==> r->Err_0 == PhaseError::CodeOutOfRange,
    {
        match code {
            0 => Ok(MoonPhase::New),
            1 => Ok(MoonPhase::WaxingCrescent),
            2 => Ok(MoonPhase::FirstQuarter),
            3 => Ok(MoonPhase::WaxingGibbous),
            4 => Ok(MoonPhase::Full),
            5 => Ok(MoonPhase::WaningGibbous),
            6 => Ok(MoonPhase::LastQuarter),
            7 => Ok(MoonPhase::WaningCrescent),
            _ => Err(PhaseError::CodeOutOfRange),
        }
    }

    /// The display label of this phase.
    pub fn label(&self) -> (r: String)
        ensures
            r@ == self.spec_label(),
    {
        match self {
            MoonPhase::New => "New".to_owned(),
            MoonPhase::WaxingCrescent => "Waxing Crescent".to_owned(),
            MoonPhase::FirstQuarter => "First Quarter".to_owned(),
            MoonPhase::WaxingGibbous => "Waxing Gibbous".to_owned(),
            MoonPhase::Full => "Full".to_owned(),
            MoonPhase::WaningGibbous => "Waning Gibbous".to_owned(),
            MoonPhase::LastQuarter => "Last Quarter".to_owned(),
            MoonPhase::WaningCrescent => "Waning Crescent".to_owned(),
        }
    }

    /// Parse a display label. Any string that is not exactly one of the
    /// eight labels is rejected.
    pub fn parse_label(s: &str) -> (r: Result<MoonPhase, PhaseError>)
        ensures
            r is Ok ==> Self::spec_parse(s@) == Some(r->Ok_0),
            r is Err ==> Self::spec_parse(s@) is None && r->Err_0 == PhaseError::UnknownLabel,
    {
        if str_eq(s, "New") {
            Ok(MoonPhase::New)
        }
 else if str_eq(s, "Waxing Crescent") {
            Ok(MoonPhase::WaxingCrescent)
        }
 else if str_eq(s, "First Quarter") {
            Ok(MoonPhase::FirstQuarter)
        }
 else if str_eq(s, "Waxing Gibbous") {
            Ok(MoonPhase::WaxingGibbous)
        }
 else if str_eq(s, "Full") {
            Ok(MoonPhase::Full)
        }
 else if str_eq(s, "Waning Gibbous") {
            Ok(MoonPhase::WaningGibbous)
        }
 else if str_eq(s, "Last Quarter") {
            Ok(MoonPhase::LastQuarter)
        }
 else if str_eq(s, "Waning Crescent") {
            Ok(MoonPhase::WaningCrescent)
        } else {
            Err(PhaseError::UnknownLabel)
        }
    }
}

/// Every numeric moon-phase code round-trips.
pub proof fn lemma_moon_code_round_trip()
    ensures
        forall|p: MoonPhase| MoonPhase::spec_decode(p.code()) == Some(p),
        forall|c: u8|
            c <= 7 ==> MoonPhase::spec_decode(c) is Some && (#[trigger] MoonPhase::spec_decode(
                c,
            ))->Some_0.code() == c,
{
}

/// Every moon-phase display label round-trips.
pub proof fn lemma_moon_label_round_trip()
    ensures
        forall|p: MoonPhase| MoonPhase::spec_parse(p.spec_label()) == Some(p),
{
    reveal_strlit("New");
    reveal_strlit("Waxing Crescent");
    reveal_strlit("First Quarter");
    reveal_strlit("Waxing Gibbous");
    reveal_strlit("Full");
    reveal_strlit("Waning Gibbous");
    reveal_strlit("Last Quarter");
    reveal_strlit("Waning Crescent");
    assert("New"@.len() == 3);
    assert("New"@[0] == 'N');
    assert("New"@[1] == 'e');
    assert("New"@[2] == 'w');
    assert("Waxing Crescent"@.len() == 15);
    assert("Waxing Crescent"@[0] == 'W');
    assert("Waxing Crescent"@[1] == 'a');
    assert("Waxing Crescent"@[2] == 'x');
    assert("First Quarter"@.len() == 13);
    assert("First Quarter"@[0] == 'F');
    assert("First Quarter"@[1] == 'i');
    assert("First Quarter"@[2] == 'r');
    assert("Waxing Gibbous"@.len() == 14);
    assert("Waxing Gibbous"@[0] == 'W');
    assert("Waxing Gibbous"@[1] == 'a');
    assert("Waxing Gibbous"@[2] == 'x');
    assert("Full"@.len() == 4);
    assert("Full"@[0] == 'F');
    assert("Full"@[1] == 'u');
    assert("Full"@[2] == 'l');
    assert("Waning Gibbous"@.len() == 14);
    assert("Waning Gibbous"@[0] == 'W');
    assert("Waning Gibbous"@[1] == 'a');
    assert("Waning Gibbous"@[2] == 'n');
    assert("Last Quarter"@.len() == 12);
    assert("Last Quarter"@[0] == 'L');
    assert("Last Quarter"@[1] == 'a');
    assert("Last Quarter"@[2] == 's');
    assert("Waning Crescent"@.len() == 15);
    assert("Waning Crescent"@[0] == 'W');
    assert("Waning Crescent"@[1] == 'a');
    assert("Waning Crescent"@[2] == 'n');
    assert forall|p: MoonPhase| MoonPhase::spec_parse(p.spec_label()) == Some(p) by {
        match p {
            MoonPhase::New => assert(MoonPhase::spec_parse("New"@) == Some(p)),
            MoonPhase::WaxingCrescent => assert(MoonPhase::spec_parse("Waxing Crescent"@) == Some(p)),
            MoonPhase::FirstQuarter => assert(MoonPhase::spec_parse("First Quarter"@) == Some(p)),
            MoonPhase::WaxingGibbous => assert(MoonPhase::spec_parse("Waxing Gibbous"@) == Some(p)),
            MoonPhase::Full => assert(MoonPhase::spec_parse("Full"@) == Some(p)),
            MoonPhase::WaningGibbous => assert(MoonPhase::spec_parse("Waning Gibbous"@) == Some(p)),
            MoonPhase::LastQuarter => assert(MoonPhase::spec_parse("Last Quarter"@) == Some(p)),
            MoonPhase::WaningCrescent => assert(MoonPhase::spec_parse("Waning Crescent"@) == Some(p)),
        }
    }
}

} // verus!
