//! The flat snapshot of a forecast record: the export and release halves of
//! the boundary protocol.
//!
//! An export walks one record and copies everything it holds into a tree of
//! freshly allocated flat buffers — the snapshot. The snapshot owns every
//! buffer in that tree, so one release of the whole snapshot frees each
//! allocation exactly once, children before their containers, and nothing
//! can be freed twice or leaked: the snapshot is an arena. Releasing an
//! absent handle is a no-op, never a fault.

use vstd::prelude::*;

use crate::forecast::Forecast as ForecastRecord;
use crate::forecast::ForecastView;
use crate::location::LocationView;
use crate::lunar_phase::LunarPhase;
use crate::registry::Registry;
use crate::registry::lemma_idx_of;
use crate::sample::Coords;
use crate::sample::WxSingle;
use crate::sun::Sun;

verus! {

/// Sun times with the day they belong to: one flat sun entry.
#[derive(Clone, Copy, Debug, PartialEq, Eq, Structural)]
pub struct LabeledSun {
    pub day: i32,
    pub sun: Sun,
}

/// A lunar-phase code with the day it belongs to: one flat phase entry.
#[derive(Clone, Copy, Debug, PartialEq, Eq, Structural)]
pub struct LabeledLunarPhase {
    pub day: i32,
    /// The phase's numeric code.
    pub phase: u8,
}

/// One location of a snapshot: its coordinates and city flag, its sun
/// entries in day order, and its weather series flattened to one sample per
/// slot.
#[derive(Clone, Debug)]
pub struct Location {
    pub coords: Coords,
    pub is_city: bool,
    pub suns: Vec<LabeledSun>,
    pub wx: Vec<WxSingle>,
}

/// A snapshot location with its key.
#[derive(Clone, Debug)]
pub struct LabeledLocation {
    pub key: String,
    pub location: Location,
}

/// An owned flat snapshot of one forecast record: the capture time, the
/// forecast-time axis, every location, and the lunar-phase table. Every
/// buffer below this struct belongs to it alone.
#[derive(Clone, Debug)]
pub struct Forecast {
    /// When the snapshot was captured, as seconds since the Unix epoch.
    pub now: u64,
    pub forecast_times: Vec<u64>,
    pub locations: Vec<LabeledLocation>,
    pub phases: Vec<LabeledLunarPhase>,
}

/// The flat location holds exactly the content of the location record: same
/// coordinates and flag, the sun entries in their stored day order, and the
/// weather series sample for sample.
pub open spec fn location_matches(fl: Location, lv: LocationView) -> bool {
    &&& fl.coords == lv.coords
    &&& fl.is_city == lv.is_city
    &&& fl.suns@.len() == lv.sun.len()
    &&& forall|i: int|
        0 <= i < lv.sun.len() ==> (#[trigger] fl.suns@[i]) == (LabeledSun {
            day: lv.sun[i].0,
            sun: lv.sun[i].1,
        })
    &&& fl.wx@ == lv.wx
}

/// The snapshot holds exactly the content of the record: the capture time,
/// the same forecast times, every location under its key in stored order,
/// and every lunar phase as its day and numeric code in stored order.
pub open spec fn snapshot_matches(snap: Forecast, fv: ForecastView, now: u64) -> bool {
    &&& snap.now == now
    &&& snap.forecast_times@ == fv.times
    &&& snap.locations@.len() == fv.locations.len()
    &&& forall|i: int|
        0 <= i < fv.locations.len() ==> (#[trigger] snap.locations@[i]).key@ == fv.locations[i].0
            && location_matches(snap.locations@[i].location, fv.locations[i].1)
    &&& snap.phases@.len() == fv.phases.len()
    &&& forall|i: int|
        0 <= i < fv.phases.len() ==> (#[trigger] snap.phases@[i]) == (LabeledLunarPhase {
            day: fv.phases[i].0,
            phase: fv.phases[i].1.code(),
        })
}

/// Copy a vector of timestamps.
fn copy_times(v: &Vec<u64>) -> (r: Vec<u64>)
    ensures
        r@ =~= v@,
{
    let mut r: Vec<u64> = Vec::new();
    let mut i: usize = 0;
    while i < v.len()
        invariant
            i <= v@.len(),
            r@ =~= v@.take(i as int),
        decreases v@.len() - i,
    {
        r.push(v[i]);
        i = i + 1;
    }
    proof {
        assert(v@.take(v@.len() as int) =~= v@);
    }
    r
}

/// Flatten one location record.
fn flatten_location(loc: &crate::location::Location) -> (r: Location)
    requires
        loc.wf(),
    ensures
        location_matches(r, loc@),
{
    let mut suns: Vec<LabeledSun> = Vec::new();
    let mut i: usize = 0;
    while i < loc.sun.len()
        invariant
            i <= loc.sun@.len(),
            suns@.len() == i,
            forall|k: int|
                0 <= k < i ==> (#[trigger] suns@[k]) == (LabeledSun {
                    day: loc.sun@[k].0,
                    sun: loc.sun@[k].1,
                }),
        decreases loc.sun@.len() - i,
    {
        let entry = loc.sun[i];
        suns.push(LabeledSun { day: entry.0, sun: entry.1 });
        i = i + 1;
    }
    let mut wx: Vec<WxSingle> = Vec::new();
    let mut j: usize = 0;
    let n = loc.wx.length();
    while j < n
        invariant
            loc.wx.wf(),
            n == loc.wx@.len(),
            j <= n,
            wx@ =~= loc.wx@.take(j as int),
        decreases n - j,
    {
        let sample = WxSingle::from(&loc.wx, j);
        wx.push(sample);
        j = j + 1;
    }
    proof {
        assert(loc.wx@.take(loc.wx@.len() as int) =~= loc.wx@);
    }
    Location { coords: loc.coords, is_city: loc.is_city, suns, wx }
}

/// Flatten a whole forecast record into a snapshot captured at `now`.
fn flatten_forecast(f: &ForecastRecord, now: u64) -> (r: Forecast)
    requires
        f.wf(),
    ensures
        snapshot_matches(r, f@, now),
{
    let forecast_times = copy_times(&f.forecast_times);
    let mut locations: Vec<LabeledLocation> = Vec::new();
    let mut i: usize = 0;
    while i < f.locations.len()
        invariant
            i <= f.locations@.len(),
            locations@.len() == i,
            forall|k: int| 0 <= k < f.locations@.len() ==> (#[trigger] f.locations@[k]).location.wf(),
            forall|k: int|
                0 <= k < i ==> (#[trigger] locations@[k]).key@ == f.locations@[k].key@
                    && location_matches(locations@[k].location, f.locations@[k].location@),
        decreases f.locations@.len() - i,
    {
        proof {
            assert(f.locations@[i as int].location.wf());
        }
        let entry: &crate::forecast::LocationEntry = &f.locations[i];
        let key = entry.key.clone();
        let location = flatten_location(&entry.location);
        locations.push(LabeledLocation { key, location });
        i = i + 1;
    }
    let mut phases: Vec<LabeledLunarPhase> = Vec::new();
    let mut j: usize = 0;
    while j < f.phases.len()
        invariant
            j <= f.phases@.len(),
            phases@.len() == j,
            forall|k: int|
                0 <= k < j ==> (#[trigger] phases@[k]) == (LabeledLunarPhase {
                    day: f.phases@[k].0,
                    phase: f.phases@[k].1.code(),
                }),
        decreases f.phases@.len() - j,
    {
        let pair = f.phases[j];
        phases.push(LabeledLunarPhase { day: pair.0, phase: pair.1.encode() });
        j = j + 1;
    }
    Forecast { now, forecast_times, locations, phases }
}

impl Registry {
    /// An owned flat snapshot of the record under this identifier, captured
    /// at `now`, or `None` for an unknown identifier. The registry is left
    /// exactly as it was; the snapshot is the caller's to release.
    pub fn export_snapshot(&self, id: &str, now: u64) -> (r: Option<Forecast>)
        requires
            self.wf(),
        ensures
            match r {
                Some(snap) => self@.contains_key(id@) && snapshot_matches(snap, self@[id@], now),
                None => !self@.contains_key(id@),
            },
    {
        match self.find(id) {
            Some(i) => {
                proof {
                    lemma_idx_of(self.entries@, id@, i as int);
                }
                let pair: &(String, ForecastRecord) = &self.entries[i];
                Some(flatten_forecast(&pair.1, now))
            },
            None => None,
        }
    }
}

/// Release a snapshot handle. Consuming the snapshot drops every buffer of
/// its tree exactly once, children before their containers; the handle
/// cannot be released twice because release takes it by value. An absent
/// handle is a no-op, never a fault.
pub fn release(handle: Option<Forecast>) {
    let _ = handle;
}

} // verus!
