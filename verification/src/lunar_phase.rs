//! The closed set of lunar-phase names.
//!
//! Each phase has a stable numeric code (`0` through `20`) and a unique
//! display label. Codes and labels both round-trip exactly; an out-of-range
//! code or an unknown label is an error, never a fallback value.

use vstd::prelude::*;

use crate::text::str_eq;

verus! {

/// Why a phase code or label was rejected.
#[derive(Clone, Copy, Debug, PartialEq, Eq, Structural)]
pub enum PhaseError {
    /// A numeric code outside the closed set of phase codes.
    CodeOutOfRange,
    /// A label that names no phase.
    UnknownLabel,
}

/// One of the 21 lunar phases: the four primary phases, the thirteen
/// calendar "named moon" labels, and four secondary phases.
#[derive(Clone, Copy, Debug, PartialEq, Eq, Structural)]
pub enum LunarPhase {
    New,
    WaxingCrescent,
    FirstQuarter,
    WaxingGibbous,
    WolfMoon,
    SnowMoon,
    WormMoon,
    PinkMoon,
    FlowerMoon,
    StrawberryMoon,
    BuckMoon,
    SturgeonMoon,
    CornMoon,
    HunterMoon,
    BeaverMoon,
    ColdMoon,
    BlueMoon,
    HarvestMoon,
    WaningGibbous,
    LastQuarter,
    WaningCrescent,
}

impl LunarPhase {
    /// The stable numeric code of this phase.
    pub open spec fn code(self) -> u8 {
        match self {
            LunarPhase::New => 0,
            LunarPhase::WaxingCrescent => 1,
            LunarPhase::FirstQuarter => 2,
            LunarPhase::WaxingGibbous => 3,
            LunarPhase::WolfMoon => 4,
            LunarPhase::SnowMoon => 5,
            LunarPhase::WormMoon => 6,
            LunarPhase::PinkMoon => 7,
            LunarPhase::FlowerMoon => 8,
            LunarPhase::StrawberryMoon => 9,
            LunarPhase::BuckMoon => 10,
            LunarPhase::SturgeonMoon => 11,
            LunarPhase::CornMoon => 12,
            LunarPhase::HunterMoon => 13,
            LunarPhase::BeaverMoon => 14,
            LunarPhase::ColdMoon => 15,
            LunarPhase::BlueMoon => 16,
            LunarPhase::HarvestMoon => 17,
            LunarPhase::WaningGibbous => 18,
            LunarPhase::LastQuarter => 19,
            LunarPhase::WaningCrescent => 20,
        }
    }

    /// The phase a numeric code names, or `None` for a code outside `0..=20`.
    pub open spec fn spec_decode(code: u8) -> Option<LunarPhase> {
        if code == 0 {
            Some(LunarPhase::New)
        } else if code == 1 {
            Some(LunarPhase::WaxingCrescent)
        } else if code == 2 {
            Some(LunarPhase::FirstQuarter)
        } else if code == 3 {
            Some(LunarPhase::WaxingGibbous)
        } else if code == 4 {
            Some(LunarPhase::WolfMoon)
        } else if code == 5 {
            Some(LunarPhase::SnowMoon)
        } else if code == 6 {
            Some(LunarPhase::WormMoon)
        } else if code == 7 {
            Some(LunarPhase::PinkMoon)
        } else if code == 8 {
            Some(LunarPhase::FlowerMoon)
        } else if code == 9 {
            Some(LunarPhase::StrawberryMoon)
        } else if code == 10 {
            Some(LunarPhase::BuckMoon)
        } else if code == 11 {
            Some(LunarPhase::SturgeonMoon)
        } else if code == 12 {
            Some(LunarPhase::CornMoon)
        } else if code == 13 {
            Some(LunarPhase::HunterMoon)
        } else if code == 14 {
            Some(LunarPhase::BeaverMoon)
        } else if code == 15 {
            Some(LunarPhase::ColdMoon)
        } else if code == 16 {
            Some(LunarPhase::BlueMoon)
        } else if code == 17 {
            Some(LunarPhase::HarvestMoon)
        } else if code == 18 {
            Some(LunarPhase::WaningGibbous)
        } else if code == 19 {
            Some(LunarPhase::LastQuarter)
        } else if code == 20 {
            Some(LunarPhase::WaningCrescent)
        } else {
            None
        }
    }

    /// The display label of this phase.
    pub open spec fn spec_label(self) -> Seq<char> {
        match self {
            LunarPhase::New => "New"@,
            LunarPhase::WaxingCrescent => "Waxing Crescent"@,
            LunarPhase::FirstQuarter => "First Quarter"@,
            LunarPhase::WaxingGibbous => "Waxing Gibbous"@,
            LunarPhase::WolfMoon => "Wolf Moon"@,
            LunarPhase::SnowMoon => "Snow Moon"@,
            LunarPhase::WormMoon => "Worm Moon"@,
            LunarPhase::PinkMoon => "Pink Moon"@,
            LunarPhase::FlowerMoon => "Flower Moon"@,
            LunarPhase::StrawberryMoon => "Strawberry Moon"@,
            LunarPhase::BuckMoon => "Buck Moon"@,
            LunarPhase::SturgeonMoon => "Sturgeon Moon"@,
            LunarPhase::CornMoon => "Corn Moon"@,
            LunarPhase::HunterMoon => "Hunter Moon"@,
            LunarPhase::BeaverMoon => "Beaver Moon"@,
            LunarPhase::ColdMoon => "Cold Moon"@,
            LunarPhase::BlueMoon => "Blue Moon"@,
            LunarPhase::HarvestMoon => "Harvest Moon"@,
            LunarPhase::WaningGibbous => "Waning Gibbous"@,
            LunarPhase::LastQuarter => "Last Quarter"@,
            LunarPhase::WaningCrescent => "Waning Crescent"@,
        }
    }

    /// The phase a label names, or `None` for any other string.
    pub open spec fn spec_parse(s: Seq<char>) -> Option<LunarPhase> {
        if s == "New"@ {
            Some(LunarPhase::New)
        } else if s == "Waxing Crescent"@ {
            Some(LunarPhase::WaxingCrescent)
        } else if s == "First Quarter"@ {
            Some(LunarPhase::FirstQuarter)
        } else if s == "Waxing Gibbous"@ {
            Some(LunarPhase::WaxingGibbous)
        } else if s == "Wolf Moon"@ {
            Some(LunarPhase::WolfMoon)
        } else if s == "Snow Moon"@ {
            Some(LunarPhase::SnowMoon)
        } else if s == "Worm Moon"@ {
            Some(LunarPhase::WormMoon)
        } else if s == "Pink Moon"@ {
            Some(LunarPhase::PinkMoon)
        } else if s == "Flower Moon"@ {
            Some(LunarPhase::FlowerMoon)
        } else if s == "Strawberry Moon"@ {
            Some(LunarPhase::StrawberryMoon)
        } else if s == "Buck Moon"@ {
            Some(LunarPhase::BuckMoon)
        } else if s == "Sturgeon Moon"@ {
            Some(LunarPhase::SturgeonMoon)
        } else if s == "Corn Moon"@ {
            Some(LunarPhase::CornMoon)
        } else if s == "Hunter Moon"@ {
            Some(LunarPhase::HunterMoon)
        } else if s == "Beaver Moon"@ {
            Some(LunarPhase::BeaverMoon)
        } else if s == "Cold Moon"@ {
            Some(LunarPhase::ColdMoon)
        } else if s == "Blue Moon"@ {
            Some(LunarPhase::BlueMoon)
        } else if s == "Harvest Moon"@ {
            Some(LunarPhase::HarvestMoon)
        } else if s == "Waning Gibbous"@ {
            Some(LunarPhase::WaningGibbous)
        } else if s == "Last Quarter"@ {
            Some(LunarPhase::LastQuarter)
        } else if s == "Waning Crescent"@ {
            Some(LunarPhase::WaningCrescent)
        } else {
            None
        }
    }

    /// Encode this phase as its numeric code.
    pub fn encode(&self) -> (r: u8)
        ensures
            r == self.code(),
    {
        match self {
            LunarPhase::New => 0,
            LunarPhase::WaxingCrescent => 1,
            LunarPhase::FirstQuarter => 2,
            LunarPhase::WaxingGibbous => 3,
            LunarPhase::WolfMoon => 4,
            LunarPhase::SnowMoon => 5,
            LunarPhase::WormMoon => 6,
            LunarPhase::PinkMoon => 7,
            LunarPhase::FlowerMoon => 8,
            LunarPhase::StrawberryMoon => 9,
            LunarPhase::BuckMoon => 10,
            LunarPhase::SturgeonMoon => 11,
            LunarPhase::CornMoon => 12,
            LunarPhase::HunterMoon => 13,
            LunarPhase::BeaverMoon => 14,
            LunarPhase::ColdMoon => 15,
            LunarPhase::BlueMoon => 16,
            LunarPhase::HarvestMoon => 17,
            LunarPhase::WaningGibbous => 18,
            LunarPhase::LastQuarter => 19,
            LunarPhase::WaningCrescent => 20,
        }
    }

    /// Decode a numeric code. A code outside `0..=20` is rejected.
    pub fn decode(code: u8) -> (r: Result<LunarPhase, PhaseError>)
        ensures
            r is Ok <==> code <= 20,
            r is Ok ==> Self::spec_decode(code) == Some(r->Ok_0),
            r is Err ==> r->Err_0 == PhaseError::CodeOutOfRange,
    {
        match code {
            0 => Ok(LunarPhase::New),
            1 => Ok(LunarPhase::WaxingCrescent),
            2 => Ok(LunarPhase::FirstQuarter),
            3 => Ok(LunarPhase::WaxingGibbous),
            4 => Ok(LunarPhase::WolfMoon),
            5 => Ok(LunarPhase::SnowMoon),
            6 => Ok(LunarPhase::WormMoon),
            7 => Ok(LunarPhase::PinkMoon),
            8 => Ok(LunarPhase::FlowerMoon),
            9 => Ok(LunarPhase::StrawberryMoon),
            10 => Ok(LunarPhase::BuckMoon),
            11 => Ok(LunarPhase::SturgeonMoon),
            12 => Ok(LunarPhase::CornMoon),
            13 => Ok(LunarPhase::HunterMoon),
            14 => Ok(LunarPhase::BeaverMoon),
            15 => Ok(LunarPhase::ColdMoon),
            16 => Ok(LunarPhase::BlueMoon),
            17 => Ok(LunarPhase::HarvestMoon),
            18 => Ok(LunarPhase::WaningGibbous),
            19 => Ok(LunarPhase::LastQuarter),
            20 => Ok(LunarPhase::WaningCrescent),
            _ => Err(PhaseError::CodeOutOfRange),
        }
    }

    /// The display label of this phase.
    pub fn label(&self) -> (r: String)
        ensures
            r@ == self.spec_label(),
    {
        match self {
            LunarPhase::New => "New".to_owned(),
            LunarPhase::WaxingCrescent => "Waxing Crescent".to_owned(),
            LunarPhase::FirstQuarter => "First Quarter".to_owned(),
            LunarPhase::WaxingGibbous => "Waxing Gibbous".to_owned(),
            LunarPhase::WolfMoon => "Wolf Moon".to_owned(),
            LunarPhase::SnowMoon => "Snow Moon".to_owned(),
            LunarPhase::WormMoon => "Worm Moon".to_owned(),
            LunarPhase::PinkMoon => "Pink Moon".to_owned(),
            LunarPhase::FlowerMoon => "Flower Moon".to_owned(),
            LunarPhase::StrawberryMoon => "Strawberry Moon".to_owned(),
            LunarPhase::BuckMoon => "Buck Moon".to_owned(),
            LunarPhase::SturgeonMoon => "Sturgeon Moon".to_owned(),
            LunarPhase::CornMoon => "Corn Moon".to_owned(),
            LunarPhase::HunterMoon => "Hunter Moon".to_owned(),
            LunarPhase::BeaverMoon => "Beaver Moon".to_owned(),
            LunarPhase::ColdMoon => "Cold Moon".to_owned(),
            LunarPhase::BlueMoon => "Blue Moon".to_owned(),
            LunarPhase::HarvestMoon => "Harvest Moon".to_owned(),
            LunarPhase::WaningGibbous => "Waning Gibbous".to_owned(),
            LunarPhase::LastQuarter => "Last Quarter".to_owned(),
            LunarPhase::WaningCrescent => "Waning Crescent".to_owned(),
        }
    }

    /// Parse a display label. Any string that is not exactly one of the 21
    /// labels is rejected.
    pub fn parse_label(s: &str) -> (r: Result<LunarPhase, PhaseError>)
        ensures
            r is Ok ==> Self::spec_parse(s@) == Some(r->Ok_0),
            r is Err ==> Self::spec_parse(s@) is None && r->Err_0 == PhaseError::UnknownLabel,
    {
        if str_eq(s, "New") {
            Ok(LunarPhase::New)
        } else if str_eq(s, "Waxing Crescent") {
            Ok(LunarPhase::WaxingCrescent)
        } else if str_eq(s, "First Quarter") {
            Ok(LunarPhase::FirstQuarter)
        } else if str_eq(s, "Waxing Gibbous") {
            Ok(LunarPhase::WaxingGibbous)
        } else if str_eq(s, "Wolf Moon") {
            Ok(LunarPhase::WolfMoon)
        } else if str_eq(s, "Snow Moon") {
            Ok(LunarPhase::SnowMoon)
        } else if str_eq(s, "Worm Moon") {
            Ok(LunarPhase::WormMoon)
        } else if str_eq(s, "Pink Moon") {
            Ok(LunarPhase::PinkMoon)
        } else if str_eq(s, "Flower Moon") {
            Ok(LunarPhase::FlowerMoon)
        } else if str_eq(s, "Strawberry Moon") {
            Ok(LunarPhase::StrawberryMoon)
        } else if str_eq(s, "Buck Moon") {
            Ok(LunarPhase::BuckMoon)
        } else if str_eq(s, "Sturgeon Moon") {
            Ok(LunarPhase::SturgeonMoon)
        } else if str_eq(s, "Corn Moon") {
            Ok(LunarPhase::CornMoon)
        } else if str_eq(s, "Hunter Moon") {
            Ok(LunarPhase::HunterMoon)
        } else if str_eq(s, "Beaver Moon") {
            Ok(LunarPhase::BeaverMoon)
        } else if str_eq(s, "Cold Moon") {
            Ok(LunarPhase::ColdMoon)
        } else if str_eq(s, "Blue Moon") {
            Ok(LunarPhase::BlueMoon)
        } else if str_eq(s, "Harvest Moon") {
            Ok(LunarPhase::HarvestMoon)
        } else if str_eq(s, "Waning Gibbous") {
            Ok(LunarPhase::WaningGibbous)
        } else if str_eq(s, "Last Quarter") {
            Ok(LunarPhase::LastQuarter)
        } else if str_eq(s, "Waning Crescent") {
            Ok(LunarPhase::WaningCrescent)
        } else {
            Err(PhaseError::UnknownLabel)
        }
    }
}

/// Every numeric phase code round-trips: decoding the code of a phase gives
/// back that phase, and encoding what a valid code decodes to gives back the
/// code.
pub proof fn lemma_lunar_code_round_trip()
    ensures
        forall|p: LunarPhase| LunarPhase::spec_decode(p.code()) == Some(p),
        forall|c: u8|
            c <= 20 ==> LunarPhase::spec_decode(c) is Some && (#[trigger] LunarPhase::spec_decode(
                c,
            ))->Some_0.code() == c,
{
}

/// Every display label round-trips: parsing the label of a phase gives back
/// that phase.
pub proof fn lemma_lunar_label_round_trip()
    ensures
        forall|p: LunarPhase| LunarPhase::spec_parse(p.spec_label()) == Some(p),
{
    reveal_strlit("New");
    reveal_strlit("Waxing Crescent");
    reveal_strlit("First Quarter");
    reveal_strlit("Waxing Gibbous");
    reveal_strlit("Wolf Moon");
    reveal_strlit("Snow Moon");
    reveal_strlit("Worm Moon");
    reveal_strlit("Pink Moon");
    reveal_strlit("Flower Moon");
    reveal_strlit("Strawberry Moon");
    reveal_strlit("Buck Moon");
    reveal_strlit("Sturgeon Moon");
    reveal_strlit("Corn Moon");
    reveal_strlit("Hunter Moon");
    reveal_strlit("Beaver Moon");
    reveal_strlit("Cold Moon");
    reveal_strlit("Blue Moon");
    reveal_strlit("Harvest Moon");
    reveal_strlit("Waning Gibbous");
    reveal_strlit("Last Quarter");
    reveal_strlit("Waning Crescent");
    assert("New"@.len() == 3);
    assert("New"@[0] == 'N');
    assert("New"@[1] == 'e');
    assert("New"@[2] == 'w');
    assert("Waxing Crescent"@.len() == 15);
    assert("Waxing Crescent"@[0] == 'W');
    assert("Waxing Crescent"@[1] == 'a');
    assert("Waxing Crescent"@[2] == 'x');
    assert("First Quarter"@.len() == 13);
    assert("First Quarter"@[0] == 'F');
    assert("First Quarter"@[1] == 'i');
    assert("First Quarter"@[2] == 'r');
    assert("Waxing Gibbous"@.len() == 14);
    assert("Waxing Gibbous"@[0] == 'W');
    assert("Waxing Gibbous"@[1] == 'a');
    assert("Waxing Gibbous"@[2] == 'x');
    assert("Wolf Moon"@.len() == 9);
    assert("Wolf Moon"@[0] == 'W');
    assert("Wolf Moon"@[1] == 'o');
    assert("Wolf Moon"@[2] == 'l');
    assert("Snow Moon"@.len() == 9);
    assert("Snow Moon"@[0] == 'S');
    assert("Snow Moon"@[1] == 'n');
    assert("Snow Moon"@[2] == 'o');
    assert("Worm Moon"@.len() == 9);
    assert("Worm Moon"@[0] == 'W');
    assert("Worm Moon"@[1] == 'o');
    assert("Worm Moon"@[2] == 'r');
    assert("Pink Moon"@.len() == 9);
    assert("Pink Moon"@[0] == 'P');
    assert("Pink Moon"@[1] == 'i');
    assert("Pink Moon"@[2] == 'n');
    assert("Flower Moon"@.len() == 11);
    assert("Flower Moon"@[0] == 'F');
    assert("Flower Moon"@[1] == 'l');
    assert("Flower Moon"@[2] == 'o');
    assert("Strawberry Moon"@.len() == 15);
    assert("Strawberry Moon"@[0] == 'S');
    assert("Strawberry Moon"@[1] == 't');
    assert("Strawberry Moon"@[2] == 'r');
    assert("Buck Moon"@.len() == 9);
    assert("Buck Moon"@[0] == 'B');
    assert("Buck Moon"@[1] == 'u');
    assert("Buck Moon"@[2] == 'c');
    assert("Sturgeon Moon"@.len() == 13);
    assert("Sturgeon Moon"@[0] == 'S');
    assert("Sturgeon Moon"@[1] == 't');
    assert("Sturgeon Moon"@[2] == 'u');
    assert("Corn Moon"@.len() == 9);
    assert("Corn Moon"@[0] == 'C');
    assert("Corn Moon"@[1] == 'o');
    assert("Corn Moon"@[2] == 'r');
    assert("Hunter Moon"@.len() == 11);
    assert("Hunter Moon"@[0] == 'H');
    assert("Hunter Moon"@[1] == 'u');
    assert("Hunter Moon"@[2] == 'n');
    assert("Beaver Moon"@.len() == 11);
    assert("Beaver Moon"@[0] == 'B');
    assert("Beaver Moon"@[1] == 'e');
    assert("Beaver Moon"@[2] == 'a');
    assert("Cold Moon"@.len() == 9);
    assert("Cold Moon"@[0] == 'C');
    assert("Cold Moon"@[1] == 'o');
    assert("Cold Moon"@[2] == 'l');
    assert("Blue Moon"@.len() == 9);
    assert("Blue Moon"@[0] == 'B');
    assert("Blue Moon"@[1] == 'l');
    assert("Blue Moon"@[2] == 'u');
    assert("Harvest Moon"@.len() == 12);
    assert("Harvest Moon"@[0] == 'H');
    assert("Harvest Moon"@[1] == 'a');
    assert("Harvest Moon"@[2] == 'r');
    assert("Waning Gibbous"@.len() == 14);
    assert("Waning Gibbous"@[0] == 'W');
    assert("Waning Gibbous"@[1] == 'a');
    assert("Waning Gibbous"@[2] == 'n');
    assert("Last Quarter"@.len() == 12);
    assert("Last Quarter"@[0] == 'L');
    assert("Last Quarter"@[1] == 'a');
    assert("Last Quarter"@[2] == 's');
    assert("Waning Crescent"@.len() == 15);
    assert("Waning Crescent"@[0] == 'W');
    assert("Waning Crescent"@[1] == 'a');
    assert("Waning Crescent"@[2] == 'n');
    assert forall|p: LunarPhase| LunarPhase::spec_parse(p.spec_label()) == Some(p) by {
        match p {
            LunarPhase::New => assert(LunarPhase::spec_parse("New"@) == Some(p)),
            LunarPhase::WaxingCrescent => assert(LunarPhase::spec_parse("Waxing Crescent"@)
                == Some(p)),
            LunarPhase::FirstQuarter => assert(LunarPhase::spec_parse("First Quarter"@) == Some(
                p,
            )),
            LunarPhase::WaxingGibbous => assert(LunarPhase::spec_parse("Waxing Gibbous"@) == Some(
                p,
            )),
            LunarPhase::WolfMoon => assert(LunarPhase::spec_parse("Wolf Moon"@) == Some(p)),
            LunarPhase::SnowMoon => assert(LunarPhase::spec_parse("Snow Moon"@) == Some(p)),
            LunarPhase::WormMoon => assert(LunarPhase::spec_parse("Worm Moon"@) == Some(p)),
            LunarPhase::PinkMoon => assert(LunarPhase::spec_parse("Pink Moon"@) == Some(p)),
            LunarPhase::FlowerMoon => assert(LunarPhase::spec_parse("Flower Moon"@) == Some(p)),
            LunarPhase::StrawberryMoon => assert(LunarPhase::spec_parse("Strawberry Moon"@)
                == Some(p)),
            LunarPhase::BuckMoon => assert(LunarPhase::spec_parse("Buck Moon"@) == Some(p)),
            LunarPhase::SturgeonMoon => assert(LunarPhase::spec_parse("Sturgeon Moon"@) == Some(
                p,
            )),
            LunarPhase::CornMoon => assert(LunarPhase::spec_parse("Corn Moon"@) == Some(p)),
            LunarPhase::HunterMoon => assert(LunarPhase::spec_parse("Hunter Moon"@) == Some(p)),
            LunarPhase::BeaverMoon => assert(LunarPhase::spec_parse("Beaver Moon"@) == Some(p)),
            LunarPhase::ColdMoon => assert(LunarPhase::spec_parse("Cold Moon"@) == Some(p)),
            LunarPhase::BlueMoon => assert(LunarPhase::spec_parse("Blue Moon"@) == Some(p)),
            LunarPhase::HarvestMoon => assert(LunarPhase::spec_parse("Harvest Moon"@) == Some(p)),
            LunarPhase::WaningGibbous => assert(LunarPhase::spec_parse("Waning Gibbous"@) == Some(
                p,
            )),
            LunarPhase::LastQuarter => assert(LunarPhase::spec_parse("Last Quarter"@) == Some(p)),
            LunarPhase::WaningCrescent => assert(LunarPhase::spec_parse("Waning Crescent"@)
                == Some(p)),
        }
    }
}

} // verus!
