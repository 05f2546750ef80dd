//! The precipitation-type bitmask.
//!
//! A sample's precipitation is a mask over three kinds — rain, freezing
//! rain, and snow — which may fall at the same time; the zero mask means no
//! precipitation. For display the mask is reduced to a single canonical
//! label by priority (snow over freezing rain over rain over none), and
//! parsing a label only ever sets a single bit or none: an unknown label is
//! not an error, it means no precipitation.

use vstd::prelude::*;

use crate::text::str_eq;

verus! {

/// The mask bit for rain.
pub const RAIN_BIT: u8 = 1;

/// The mask bit for freezing rain.
pub const FREEZING_RAIN_BIT: u8 = 2;

/// The mask bit for snow.
pub const SNOW_BIT: u8 = 4;

/// A bitmask of the kinds of precipitation falling at once.
#[derive(Clone, Copy, Debug, PartialEq, Eq, Structural)]
pub struct PrecipitationType {
    /// The raw mask byte. Bits outside the three named kinds carry no
    /// meaning but are passed through unchanged.
    pub bits: u8,
}

impl PrecipitationType {
    /// The mask reduced to its highest-priority single bit: snow over
    /// freezing rain over rain over none.
    pub open spec fn canonical_bits(b: u8) -> u8 {
        if b & SNOW_BIT != 0 {
            SNOW_BIT
        } else if b & FREEZING_RAIN_BIT != 0 {
            FREEZING_RAIN_BIT
        } else if b & RAIN_BIT != 0 {
            RAIN_BIT
        } else {
            0
        }
    }

    /// The canonical display label of a mask: the label of its
    /// highest-priority bit, or the empty string for no precipitation.
    pub open spec fn spec_label(b: u8) -> Seq<char> {
        if b & SNOW_BIT != 0 {
            "snow"@
        } else if b & FREEZING_RAIN_BIT != 0 {
            "ice"@
        } else if b & RAIN_BIT != 0 {
            "rain"@
        } else {
            ""@
        }
    }

    /// The mask a label parses to. Only the three canonical labels set a
    /// bit; every other string means no precipitation.
    pub open spec fn spec_parse(s: Seq<char>) -> u8 {
        if s == "rain"@ {
            RAIN_BIT
        } else if s == "ice"@ {
            FREEZING_RAIN_BIT
        } else if s == "snow"@ {
            SNOW_BIT
        } else {
            0
        }
    }

    /// The empty mask: no precipitation.
    pub fn none() -> (r: PrecipitationType)
        ensures
            r.bits == 0,
    {
        PrecipitationType { bits: 0 }
    }

    /// Decode a raw mask byte; the bit value is passed through unchanged.
    pub fn from_bits(bits: u8) -> (r: PrecipitationType)
        ensures
            r.bits == bits,
    {
        PrecipitationType { bits }
    }

    /// Encode the mask as its raw byte.
    pub fn encode(&self) -> (r: u8)
        ensures
            r == self.bits,
    {
        self.bits
    }

    /// Whether every bit of `other` is set in this mask.
    pub fn contains(&self, other: PrecipitationType) -> (r: bool)
        ensures
            r == (self.bits & other.bits == other.bits),
    {
        self.bits & other.bits == other.bits
    }

    /// The mask reduced to its single canonical bit.
    pub fn canonical(&self) -> (r: PrecipitationType)
        ensures
            r.bits == Self::canonical_bits(self.bits),
    {
        if self.bits & SNOW_BIT != 0 {
            PrecipitationType { bits: SNOW_BIT }
        } else if self.bits & FREEZING_RAIN_BIT != 0 {
            PrecipitationType { bits: FREEZING_RAIN_BIT }
        } else if self.bits & RAIN_BIT != 0 {
            PrecipitationType { bits: RAIN_BIT }
        } else {
            PrecipitationType { bits: 0 }
        }
    }

    /// The canonical display label of the mask.
    pub fn label(&self) -> (r: String)
        ensures
            r@ == Self::spec_label(self.bits),
    {
        if self.bits & SNOW_BIT != 0 {
            "snow".to_owned()
        } else if self.bits & FREEZING_RAIN_BIT != 0 {
            "ice".to_owned()
        } else if self.bits & RAIN_BIT != 0 {
            "rain".to_owned()
        } else {
            "".to_owned()
        }
    }

    /// Parse a display label. Never an error: an unknown label means no
    /// precipitation, by design.
    pub fn parse_label(s: &str) -> (r: PrecipitationType)
        ensures
            r.bits == Self::spec_parse(s@),
    {
        if str_eq(s, "rain") {
            PrecipitationType { bits: RAIN_BIT }
        } else if str_eq(s, "ice") {
            PrecipitationType { bits: FREEZING_RAIN_BIT }
        } else if str_eq(s, "snow") {
            PrecipitationType { bits: SNOW_BIT }
        } else {
            PrecipitationType { bits: 0 }
        }
    }
}

/// Parsing the label of a mask gives back the mask's canonical single-bit
/// projection, so the label round-trips exactly when the mask already is a
/// canonical value — one single-bit kind or the zero mask — and for no
/// other mask.
pub proof fn lemma_precip_label_round_trip()
    ensures
        forall|b: u8|
            PrecipitationType::spec_parse(#[trigger] PrecipitationType::spec_label(b))
                == PrecipitationType::canonical_bits(b),
        forall|b: u8|
            (#[trigger] PrecipitationType::canonical_bits(b) == b) <==> (b == 0 || b == RAIN_BIT
                || b == FREEZING_RAIN_BIT || b == SNOW_BIT),
{
    reveal_strlit("rain");
    reveal_strlit("ice");
    reveal_strlit("snow");
    reveal_strlit("");
    assert("rain"@.len() == 4);
    assert("ice"@.len() == 3);
    assert("snow"@.len() == 4);
    assert(""@.len() == 0);
    assert("rain"@[0] == 'r');
    assert("snow"@[0] == 's');
    assert forall|b: u8|
        (PrecipitationType::canonical_bits(b) == b) <==> (b == 0 || b == RAIN_BIT || b
            == FREEZING_RAIN_BIT || b == SNOW_BIT) by {
        assert(((if b & 4 != 0 {
            4u8
        } else if b & 2 != 0 {
            2u8
        } else if b & 1 != 0 {
            1u8
        } else {
            0u8
        }) == b) <==> (b == 0 || b == 1 || b == 2 || b == 4)) by (bit_vector);
    }
}

} // verus!
