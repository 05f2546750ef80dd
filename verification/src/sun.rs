//! Sunrise and sunset times for one day.

use vstd::prelude::*;

verus! {

/// Sunrise and sunset for a single day, as seconds since the Unix epoch.
#[derive(Clone, Copy, Debug, PartialEq, Eq, Structural)]
pub struct Sun {
    pub rise: u64,
    pub set: u64,
}

} // verus!
