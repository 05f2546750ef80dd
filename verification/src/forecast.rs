//! One forecast record: the forecast-time axis, the named location records,
//! and the lunar-phase table.
//!
//! The record's standing invariant is that every location's weather series
//! has exactly one slot per forecast time. Appending a forecast time grows
//! every location's series by one zero slot, so the invariant holds after
//! every operation returns.

use vstd::prelude::*;

use crate::day_map::day_sorted;
use crate::day_map::day_upsert;
use crate::day_map::spec_day_upsert;
use crate::location::Location;
use crate::location::LocationView;
use crate::lunar_phase::LunarPhase;
use crate::sample::Coords;
use crate::sample::WxSingle;
use crate::sun::Sun;
use crate::text::str_eq;

verus! {

/// The mathematical content of a forecast record.
#[verifier::ext_equal]
pub struct ForecastView {
    /// The forecast-time axis, append-only; index `i` is the stable
    /// coordinate into every location's weather series.
    pub times: Seq<u64>,
    /// The location records with their keys, in creation order, one entry
    /// per key.
    pub locations: Seq<(Seq<char>, LocationView)>,
    /// The lunar-phase table, in ascending day order, one entry per day.
    pub phases: Seq<(i32, LunarPhase)>,
}

impl ForecastView {
    /// A record with nothing in it.
    pub open spec fn empty() -> ForecastView {
        ForecastView { times: Seq::empty(), locations: Seq::empty(), phases: Seq::empty() }
    }

    /// Location keys are distinct, every location is well formed with its
    /// weather series as long as the time axis, and the phase table is
    /// day-sorted.
    pub open spec fn wf(self) -> bool {
        &&& forall|i: int, j: int|
            0 <= i < j < self.locations.len() ==> self.locations[i].0 != self.locations[j].0
        &&& forall|i: int|
            0 <= i < self.locations.len() ==> (#[trigger] self.locations[i].1).wf()
        &&& forall|i: int|
            0 <= i < self.locations.len() ==> (#[trigger] self.locations[i].1).wx.len()
                == self.times.len()
        &&& day_sorted(self.phases)
    }

    /// Whether a location with this key exists.
    pub open spec fn loc_has(self, name: Seq<char>) -> bool {
        exists|i: int| 0 <= i < self.locations.len() && self.locations[i].0 == name
    }

    /// The position of the location with this key.
    pub open spec fn loc_idx(self, name: Seq<char>) -> int {
        choose|i: int| 0 <= i < self.locations.len() && self.locations[i].0 == name
    }

    /// The record with the location at `i` replaced, key kept.
    pub open spec fn spec_with_location(self, i: int, lv: LocationView) -> ForecastView {
        ForecastView {
            times: self.times,
            locations: self.locations.update(i, (self.locations[i].0, lv)),
            phases: self.phases,
        }
    }

    /// One forecast time appended; every location's weather series grows by
    /// one zero slot, keeping the series aligned with the axis.
    pub open spec fn spec_append_time(self, t: u64) -> ForecastView {
        ForecastView {
            times: self.times.push(t),
            locations: self.locations.map_values(
                |p: (Seq<char>, LocationView)|
                    (
                        p.0,
                        LocationView {
                            coords: p.1.coords,
                            is_city: p.1.is_city,
                            sun: p.1.sun,
                            wx: p.1.wx.push(WxSingle::spec_zero()),
                        },
                    ),
            ),
            phases: self.phases,
        }
    }

    /// The lunar phase for one day inserted or overwritten.
    pub open spec fn spec_set_phase(self, day: i32, phase: LunarPhase) -> ForecastView {
        ForecastView {
            times: self.times,
            locations: self.locations,
            phases: spec_day_upsert(self.phases, day, phase),
        }
    }

    /// The record with a location under this key: unchanged when the key
    /// exists, else with a fresh location appended whose weather series
    /// already has one zero slot per forecast time.
    pub open spec fn spec_ensure_location(self, name: Seq<char>) -> ForecastView {
        if self.loc_has(name) {
            self
        } else {
            ForecastView {
                times: self.times,
                locations: self.locations.push((name, LocationView::fresh(self.times.len()))),
                phases: self.phases,
            }
        }
    }

    /// The location created if absent, then its coordinates and city flag
    /// overwritten; its sun times and weather stay.
    pub open spec fn spec_upsert_location(
        self,
        name: Seq<char>,
        coords: Coords,
        is_city: bool,
    ) -> ForecastView {
        let s = self.spec_ensure_location(name);
        let i = s.loc_idx(name);
        let lv = s.locations[i].1;
        s.spec_with_location(
            i,
            LocationView { coords, is_city, sun: lv.sun, wx: lv.wx },
        )
    }

    /// The sun times for one day of an existing location inserted or
    /// overwritten.
    pub open spec fn spec_set_sun(self, name: Seq<char>, day: i32, sun: Sun) -> ForecastView {
        let i = self.loc_idx(name);
        let lv = self.locations[i].1;
        self.spec_with_location(
            i,
            LocationView {
                coords: lv.coords,
                is_city: lv.is_city,
                sun: spec_day_upsert(lv.sun, day, sun),
                wx: lv.wx,
            },
        )
    }

    /// One weather sample written at its slot, the location created first if
    /// absent.
    pub open spec fn spec_set_weather_at(
        self,
        name: Seq<char>,
        at: int,
        sample: WxSingle,
    ) -> ForecastView {
        let s = self.spec_ensure_location(name);
        let i = s.loc_idx(name);
        let lv = s.locations[i].1;
        s.spec_with_location(
            i,
            LocationView {
                coords: lv.coords,
                is_city: lv.is_city,
                sun: lv.sun,
                wx: lv.wx.update(at, sample),
            },
        )
    }

    /// A run of sun entries upserted one after another into an existing
    /// location, first entry first.
    pub open spec fn spec_import_suns(
        self,
        name: Seq<char>,
        suns: Seq<(i32, Sun)>,
    ) -> ForecastView
        decreases suns.len(),
    {
        if suns.len() == 0 {
            self
        } else {
            self.spec_set_sun(name, suns[0].0, suns[0].1).spec_import_suns(
                name,
                suns.drop_first(),
            )
        }
    }

    /// A run of samples written at their positional slots, the location
    /// created first if absent; slots past the run keep their values.
    pub open spec fn spec_import_weather(
        self,
        name: Seq<char>,
        samples: Seq<WxSingle>,
    ) -> ForecastView {
        let s = self.spec_ensure_location(name);
        let i = s.loc_idx(name);
        let lv = s.locations[i].1;
        s.spec_with_location(
            i,
            LocationView {
                coords: lv.coords,
                is_city: lv.is_city,
                sun: lv.sun,
                wx: samples + lv.wx.skip(samples.len() as int),
            },
        )
    }
}

impl ForecastView {
    /// A whole foreign-supplied location taken in at once: the location
    /// created if absent, its coordinates and flag overwritten, each sun
    /// entry upserted in order, and the weather run written positionally.
    pub open spec fn spec_import_location(
        self,
        name: Seq<char>,
        coords: Coords,
        is_city: bool,
        suns: Seq<(i32, Sun)>,
        samples: Seq<WxSingle>,
    ) -> ForecastView {
        self.spec_upsert_location(name, coords, is_city).spec_import_suns(
            name,
            suns,
        ).spec_import_weather(name, samples)
    }
}

/// Upserting one more sun entry after a run is the same as upserting the
/// lengthened run.
proof fn lemma_import_suns_push(
    fv: ForecastView,
    name: Seq<char>,
    suns: Seq<(i32, Sun)>,
    x: (i32, Sun),
)
    ensures
        fv.spec_import_suns(name, suns.push(x)) == fv.spec_import_suns(name, suns).spec_set_sun(
            name,
            x.0,
            x.1,
        ),
    decreases suns.len(),
{
    let s1 = suns.push(x);
    if suns.len() == 0 {
        assert(s1.drop_first() =~= Seq::<(i32, Sun)>::empty());
        assert(s1[0] == x);
        assert(fv.spec_import_suns(name, s1) == fv.spec_set_sun(name, x.0, x.1).spec_import_suns(
            name,
            s1.drop_first(),
        ));
        assert(fv.spec_set_sun(name, x.0, x.1).spec_import_suns(name, s1.drop_first())
            == fv.spec_set_sun(name, x.0, x.1));
        assert(fv.spec_import_suns(name, suns) == fv);
    } else {
        assert(s1.drop_first() =~= suns.drop_first().push(x));
        assert(s1[0] == suns[0]);
        let step = fv.spec_set_sun(name, suns[0].0, suns[0].1);
        assert(fv.spec_import_suns(name, s1) == step.spec_import_suns(name, s1.drop_first()));
        lemma_import_suns_push(step, name, suns.drop_first(), x);
        assert(fv.spec_import_suns(name, suns) == step.spec_import_suns(name, suns.drop_first()));
    }
}

/// Appending a forecast time grows the axis by exactly one, and afterwards
/// every location's weather series is exactly as long as the new axis: the
/// alignment invariant holds again the moment the append returns, for every
/// record and every sequence of appends.
pub proof fn lemma_append_time_alignment(fv: ForecastView, t: u64)
    requires
        fv.wf(),
    ensures
        fv.spec_append_time(t).wf(),
        fv.spec_append_time(t).times.len() == fv.times.len() + 1,
        forall|i: int|
            0 <= i < fv.spec_append_time(t).locations.len() ==> (#[trigger] fv.spec_append_time(
                t,
            ).locations[i].1).wx.len() == fv.spec_append_time(t).times.len(),
{
    let r = fv.spec_append_time(t);
    assert forall|i: int| 0 <= i < r.locations.len() implies (#[trigger] r.locations[i].1).wf()
        && r.locations[i].1.wx.len() == r.times.len() by {
        assert(fv.locations[i].1.wf());
        assert(fv.locations[i].1.wx.len() == fv.times.len());
    }
    assert forall|i: int, j: int|
        0 <= i < j < r.locations.len() implies r.locations[i].0 != r.locations[j].0 by {
        assert(fv.locations[i].0 != fv.locations[j].0);
    }
}

/// With distinct keys, any position holding the key is the position the
/// record's lookup names.
pub proof fn lemma_loc_idx(fv: ForecastView, name: Seq<char>, i: int)
    requires
        fv.wf(),
        0 <= i < fv.locations.len(),
        fv.locations[i].0 == name,
    ensures
        fv.loc_has(name),
        fv.loc_idx(name) == i,
{
    assert(fv.loc_has(name));
    let j = fv.loc_idx(name);
    assert(0 <= j < fv.locations.len() && fv.locations[j].0 == name) by {
        assert(exists|k: int| 0 <= k < fv.locations.len() && fv.locations[k].0 == name);
    }
}

/// A location record with its key: one entry of a forecast record.
#[derive(Clone, Debug)]
pub struct LocationEntry {
    pub key: String,
    pub location: Location,
}

impl View for LocationEntry {
    type V = (Seq<char>, LocationView);

    open spec fn view(&self) -> (Seq<char>, LocationView) {
        (self.key@, self.location@)
    }
}

/// A forecast record.
#[derive(Clone, Debug)]
pub struct Forecast {
    /// The forecast-time axis, append-only.
    pub forecast_times: Vec<u64>,
    /// The location records, in creation order, one per key.
    pub locations: Vec<LocationEntry>,
    /// The lunar-phase table, kept in ascending day order.
    pub phases: Vec<(i32, LunarPhase)>,
}

impl View for Forecast {
    type V = ForecastView;

    open spec fn view(&self) -> ForecastView {
        ForecastView {
            times: self.forecast_times@,
            locations: self.locations@.map_values(|l: LocationEntry| l@),
            phases: self.phases@,
        }
    }
}

impl Forecast {
    /// The view is well formed and each location's column storage lines up.
    pub open spec fn wf(&self) -> bool {
        &&& self@.wf()
        &&& forall|i: int|
            0 <= i < self.locations@.len() ==> (#[trigger] self.locations@[i]).location.wf()
    }

    /// An empty record.
    pub fn new() -> (r: Forecast)
        ensures
            r.wf(),
            r@ =~~= ForecastView::empty(),
    {
        let r = Forecast { forecast_times: Vec::new(), locations: Vec::new(), phases: Vec::new() };
        proof {
            assert(r@.locations =~= Seq::<(Seq<char>, LocationView)>::empty());
        }
        r
    }

    /// The number of forecast times (and so the length of every location's
    /// weather series).
    pub fn times_len(&self) -> (r: usize)
        ensures
            r == self@.times.len(),
    {
        self.forecast_times.len()
    }

    /// The position of the location with this key, if one exists.
    pub fn find_location(&self, name: &str) -> (r: Option<usize>)
        ensures
            match r {
                Some(i) => i < self@.locations.len() && self@.locations[i as int].0 == name@,
                None => !self@.loc_has(name@),
            },
    {
        let mut i: usize = 0;
        while i < self.locations.len()
            invariant
                i <= self.locations@.len(),
                forall|k: int| 0 <= k < i ==> self@.locations[k].0 != name@,
            decreases self.locations@.len() - i,
        {
            if str_eq(self.locations[i].key.as_str(), name) {
                return Some(i);
            }
            i = i + 1;
        }
        None
    }

    /// Whether a location with this key exists.
    pub fn has_location(&self, name: &str) -> (r: bool)
        ensures
            r == self@.loc_has(name@),
    {
        match self.find_location(name) {
            Some(i) => {
                proof {
                    assert(self@.loc_has(name@));
                }
                true
            },
            None => false,
        }
    }

    /// Append one forecast time and grow every location's weather series by
    /// one zero slot, so the alignment invariant holds when this returns.
    pub fn append_time(&mut self, t: u64)
        requires
            old(self).wf(),
        ensures
            final(self).wf(),
            final(self)@ =~~= old(self)@.spec_append_time(t),
            final(self)@.times.len() == old(self)@.times.len() + 1,
    {
        self.forecast_times.push(t);
        let ghost orig: Seq<LocationEntry> = self.locations@;
        let mut i: usize = 0;
        while i < self.locations.len()
            invariant
                i <= self.locations@.len(),
                self.locations@.len() == orig.len(),
                self.forecast_times@ == old(self).forecast_times@.push(t),
                self.phases@ == old(self).phases@,
                forall|k: int|
                    #![trigger self.locations@[k]]
                    i <= k < orig.len() ==> self.locations@[k] == orig[k],
                forall|k: int|
                    #![trigger self.locations@[k]]
                    0 <= k < i ==> {
                        &&& self.locations@[k].key@ == orig[k].key@
                        &&& self.locations@[k].location.wf()
                        &&& self.locations@[k].location@ == (LocationView {
                            coords: orig[k].location@.coords,
                            is_city: orig[k].location@.is_city,
                            sun: orig[k].location@.sun,
                            wx: orig[k].location@.wx.push(WxSingle::spec_zero()),
                        })
                    },
                forall|k: int| #![trigger orig[k]] 0 <= k < orig.len() ==> orig[k].location.wf(),
            decreases self.locations@.len() - i,
        {
            let ghost pre: Seq<LocationEntry> = self.locations@;
            proof {
                assert(pre[i as int] == orig[i as int]);
                assert(orig[i as int].location.wf());
            }
            let mut entry = self.locations.remove(i);
            entry.location.push_weather_slot();
            self.locations.insert(i, entry);
            proof {
                assert(self.locations@ =~= pre.update(i as int, entry));
            }
            i = i + 1;
        }
        proof {
            let lhs = final(self)@.locations;
            let rhs = old(self)@.spec_append_time(t).locations;
            assert forall|k: int| 0 <= k < orig.len() implies lhs[k] =~~= rhs[k] by {
                assert(self.locations@[k].location@ == (LocationView {
                    coords: orig[k].location@.coords,
                    is_city: orig[k].location@.is_city,
                    sun: orig[k].location@.sun,
                    wx: orig[k].location@.wx.push(WxSingle::spec_zero()),
                }));
            }
            assert(lhs =~~= rhs);
            assert(final(self)@ =~~= old(self)@.spec_append_time(t));
        }
    }

    /// Insert or overwrite the lunar phase for one day.
    pub fn set_lunar_phase(&mut self, day: i32, phase: LunarPhase)
        requires
            old(self).wf(),
        ensures
            final(self).wf(),
            final(self)@ =~~= old(self)@.spec_set_phase(day, phase),
    {
        day_upsert(&mut self.phases, day, phase);
        proof {
            assert(final(self)@.locations =~= old(self)@.locations);
            assert(final(self)@.phases =~= old(self)@.spec_set_phase(day, phase).phases);
            assert(final(self).wf());
        }
    }

    /// Create the location under this key if it is absent, with a weather
    /// series already holding one zero slot per forecast time. Returns the
    /// location's position.
    pub fn ensure_location(&mut self, name: &str) -> (r: usize)
        requires
            old(self).wf(),
        ensures
            final(self).wf(),
            final(self)@ =~~= old(self)@.spec_ensure_location(name@),
            r < final(self)@.locations.len(),
            final(self)@.locations[r as int].0 == name@,
            final(self)@.loc_idx(name@) == r,
    {
        let r: usize = match self.find_location(name) {
            Some(i) => i,
            None => {
                let fresh = Location::new(self.forecast_times.len());
                self.locations.push(LocationEntry { key: name.to_owned(), location: fresh });
                self.locations.len() - 1
            },
        };
        proof {
            assert(final(self)@ =~~= old(self)@.spec_ensure_location(name@));
            lemma_loc_idx(final(self)@, name@, r as int);
        }
        r
    }

    /// Create the location if absent, then overwrite its coordinates and
    /// city flag.
    pub fn upsert_location(&mut self, name: &str, coords: Coords, is_city: bool)
        requires
            old(self).wf(),
        ensures
            final(self).wf(),
            final(self)@ =~~= old(self)@.spec_upsert_location(name@, coords, is_city),
    {
        let i = self.ensure_location(name);
        let mut entry = self.locations.remove(i);
        entry.location.set_coords(coords, is_city);
        self.locations.insert(i, entry);
        proof {
            assert(final(self)@ =~~= old(self)@.spec_upsert_location(name@, coords, is_city));
        }
    }

    /// Insert or overwrite the sun times for one day of an existing
    /// location. The location must already exist, created via
    /// `upsert_location` or `ensure_location`.
    pub fn set_sun_times(&mut self, name: &str, day: i32, sun: Sun)
        requires
            old(self).wf(),
            old(self)@.loc_has(name@),
        ensures
            final(self).wf(),
            final(self)@ =~~= old(self)@.spec_set_sun(name@, day, sun),
    {
        let i: usize = match self.find_location(name) {
            Some(i) => i,
            None => {
                proof {
                    assert(false);
                }
                0
            },
        };
        proof {
            lemma_loc_idx(self@, name@, i as int);
        }
        let mut entry = self.locations.remove(i);
        entry.location.set_sun_times(day, sun);
        self.locations.insert(i, entry);
        proof {
            assert(final(self)@ =~~= old(self)@.spec_set_sun(name@, day, sun));
        }
    }

    /// Write one weather sample at its slot, creating the location first if
    /// it is absent. A slot at or past the end of the axis is a caller
    /// error, never a silent drop.
    pub fn set_weather_at(&mut self, name: &str, at: usize, sample: &WxSingle)
        requires
            old(self).wf(),
            at < old(self)@.times.len(),
        ensures
            final(self).wf(),
            final(self)@ =~~= old(self)@.spec_set_weather_at(name@, at as int, *sample),
    {
        let i = self.ensure_location(name);
        proof {
            assert(self@.locations[i as int].1.wx.len() == self@.times.len());
            assert(self@.times == old(self)@.times);
            assert(self.locations@[i as int]@ == self@.locations[i as int]);
        }
        let mut entry = self.locations.remove(i);
        proof {
            assert(entry.location@.wx.len() == old(self)@.times.len());
        }
        entry.location.set_weather_at(sample, at);
        self.locations.insert(i, entry);
        proof {
            assert(final(self)@ =~~= old(self)@.spec_set_weather_at(name@, at as int, *sample));
        }
    }

    /// Write a run of weather samples at their positional slots, creating
    /// the location first if it is absent. The run may not be longer than
    /// the forecast-time axis.
    pub fn import_weather(&mut self, name: &str, samples: &Vec<WxSingle>)
        requires
            old(self).wf(),
            samples@.len() <= old(self)@.times.len(),
        ensures
            final(self).wf(),
            final(self)@ =~~= old(self)@.spec_import_weather(name@, samples@),
    {
        let i = self.ensure_location(name);
        proof {
            assert(self@.locations[i as int].1.wx.len() == self@.times.len());
            assert(self@.times == old(self)@.times);
            assert(self.locations@[i as int]@ == self@.locations[i as int]);
        }
        let mut entry = self.locations.remove(i);
        proof {
            assert(entry.location@.wx.len() == old(self)@.times.len());
        }
        entry.location.import_weather(samples);
        self.locations.insert(i, entry);
        proof {
            assert(final(self)@ =~~= old(self)@.spec_import_weather(name@, samples@));
        }
    }

    /// Take in a whole foreign-supplied location at once: create it if
    /// absent, overwrite its coordinates and city flag, upsert each sun
    /// entry in order, and write the weather run positionally. The weather
    /// run may not be longer than the forecast-time axis.
    pub fn import_location(
        &mut self,
        name: &str,
        coords: Coords,
        is_city: bool,
        suns: &Vec<(i32, Sun)>,
        samples: &Vec<WxSingle>,
    )
        requires
            old(self).wf(),
            samples@.len() <= old(self)@.times.len(),
        ensures
            final(self).wf(),
            final(self)@ =~~= old(self)@.spec_import_location(
                name@,
                coords,
                is_city,
                suns@,
                samples@,
            ),
    {
        self.upsert_location(name, coords, is_city);
        let ghost base: ForecastView = self@;
        proof {
            assert(base.loc_has(name@)) by {
                let s = old(self)@.spec_ensure_location(name@);
                if !old(self)@.loc_has(name@) {
                    assert(s.locations[s.locations.len() - 1].0 == name@);
                }
                assert(s.loc_has(name@));
                let i = s.loc_idx(name@);
                assert(0 <= i < s.locations.len() && s.locations[i].0 == name@) by {
                    assert(exists|j: int|
                        0 <= j < s.locations.len() && s.locations[j].0 == name@);
                }
                assert(base.locations[i].0 == name@);
            }
            assert(base.times == old(self)@.times);
            assert(base.spec_import_suns(name@, suns@.take(0)) == base);
        }
        let mut i: usize = 0;
        while i < suns.len()
            invariant
                i <= suns@.len(),
                self.wf(),
                self@.loc_has(name@),
                self@.times == base.times,
                self@ == base.spec_import_suns(name@, suns@.take(i as int)),
            decreases suns@.len() - i,
        {
            let ghost before: ForecastView = self@;
            let entry = suns[i];
            self.set_sun_times(name, entry.0, entry.1);
            proof {
                let j = before.loc_idx(name@);
                assert(self@.locations[j].0 == name@);
                assert(self@.loc_has(name@));
                lemma_import_suns_push(base, name@, suns@.take(i as int), entry);
                assert(suns@.take(i as int).push(entry) =~= suns@.take(i + 1));
                assert(self@ == base.spec_import_suns(name@, suns@.take(i + 1)));
            }
            i = i + 1;
        }
        proof {
            assert(suns@.take(suns@.len() as int) =~= suns@);
        }
        self.import_weather(name, samples);
        proof {
            assert(final(self)@ =~~= old(self)@.spec_import_location(
                name@,
                coords,
                is_city,
                suns@,
                samples@,
            ));
        }
    }
}

} // verus!
