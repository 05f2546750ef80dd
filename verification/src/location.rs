//! One location's record: coordinates, the city flag, per-day sun times,
//! and the dense weather time series.

use vstd::prelude::*;

use crate::day_map::day_sorted;
use crate::day_map::day_upsert;
use crate::day_map::spec_day_upsert;
use crate::sample::Coords;
use crate::sample::WxSingle;
use crate::sun::Sun;
use crate::wx::Wx;

verus! {

/// The mathematical content of a location record.
#[verifier::ext_equal]
pub struct LocationView {
    pub coords: Coords,
    pub is_city: bool,
    /// Per-day sun times, in ascending day order, one entry per day.
    pub sun: Seq<(i32, Sun)>,
    /// The weather time series, index-aligned with the record's
    /// forecast-time axis.
    pub wx: Seq<WxSingle>,
}

impl LocationView {
    /// Sun entries ascend strictly by day.
    pub open spec fn wf(self) -> bool {
        day_sorted(self.sun)
    }

    /// A location as first created: zero coordinates, not a city, no sun
    /// entries, and an all-zero weather series of `slots` samples.
    pub open spec fn fresh(slots: nat) -> LocationView {
        LocationView {
            coords: Coords { lat_bits: 0, lon_bits: 0, x: 0, y: 0 },
            is_city: false,
            sun: Seq::empty(),
            wx: Seq::new(slots, |i: int| WxSingle::spec_zero()),
        }
    }
}

/// A location record.
#[derive(Clone, Debug)]
pub struct Location {
    pub coords: Coords,
    pub is_city: bool,
    /// Per-day sun times, kept in ascending day order.
    pub sun: Vec<(i32, Sun)>,
    /// The weather time series.
    pub wx: Wx,
}

impl View for Location {
    type V = LocationView;

    open spec fn view(&self) -> LocationView {
        LocationView { coords: self.coords, is_city: self.is_city, sun: self.sun@, wx: self.wx@ }
    }
}

impl Location {
    /// The sun table is day-sorted and the weather columns line up.
    pub open spec fn wf(&self) -> bool {
        &&& self.wx.wf()
        &&& day_sorted(self.sun@)
    }

    /// A fresh location whose weather series already has `size` zero slots,
    /// one per existing forecast time.
    pub fn new(size: usize) -> (r: Location)
        ensures
            r.wf(),
            r@ =~= LocationView::fresh(size as nat),
    {
        let r = Location {
            coords: Coords::zero(),
            is_city: false,
            sun: Vec::new(),
            wx: Wx::new(size),
        };
        proof {
            assert(r@.sun =~= Seq::<(i32, Sun)>::empty());
        }
        r
    }

    /// Overwrite the coordinates and the city flag; sun times and weather
    /// stay as they were.
    pub fn set_coords(&mut self, coords: Coords, is_city: bool)
        requires
            old(self).wf(),
        ensures
            final(self).wf(),
            final(self)@ =~= (LocationView {
                coords,
                is_city,
                sun: old(self)@.sun,
                wx: old(self)@.wx,
            }),
    {
        self.coords = coords;
        self.is_city = is_city;
    }

    /// Insert or overwrite the sun times for one day.
    pub fn set_sun_times(&mut self, day: i32, sun: Sun)
        requires
            old(self).wf(),
        ensures
            final(self).wf(),
            final(self)@ =~= (LocationView {
                coords: old(self)@.coords,
                is_city: old(self)@.is_city,
                sun: spec_day_upsert(old(self)@.sun, day, sun),
                wx: old(self)@.wx,
            }),
    {
        day_upsert(&mut self.sun, day, sun);
    }

    /// Write one sample at its slot. A slot at or past the end of the
    /// series is a caller error, never a silent drop: it means the caller
    /// and the forecast-time axis are out of step.
    pub fn set_weather_at(&mut self, sample: &WxSingle, at: usize)
        requires
            old(self).wf(),
            at < old(self)@.wx.len(),
        ensures
            final(self).wf(),
            final(self)@ =~= (LocationView {
                coords: old(self)@.coords,
                is_city: old(self)@.is_city,
                sun: old(self)@.sun,
                wx: old(self)@.wx.update(at as int, *sample),
            }),
    {
        self.wx.add(sample, at);
    }

    /// Write a whole run of samples, each at its positional slot. The series
    /// must already be at least as long as the run.
    pub fn import_weather(&mut self, samples: &Vec<WxSingle>)
        requires
            old(self).wf(),
            samples@.len() <= old(self)@.wx.len(),
        ensures
            final(self).wf(),
            final(self)@ =~= (LocationView {
                coords: old(self)@.coords,
                is_city: old(self)@.is_city,
                sun: old(self)@.sun,
                wx: samples@ + old(self)@.wx.skip(samples@.len() as int),
            }),
    {
        let mut i: usize = 0;
        while i < samples.len()
            invariant
                i <= samples@.len(),
                samples@.len() <= old(self)@.wx.len(),
                self.wf(),
                self@.coords == old(self)@.coords,
                self@.is_city == old(self)@.is_city,
                self@.sun == old(self)@.sun,
                self@.wx =~= samples@.take(i as int) + old(self)@.wx.skip(i as int),
            decreases samples@.len() - i,
        {
            let sample = samples[i];
            self.wx.add(&sample, i);
            i = i + 1;
            proof {
                assert(self@.wx =~= samples@.take(i as int) + old(self)@.wx.skip(i as int));
            }
        }
        proof {
            assert(samples@.take(samples@.len() as int) =~= samples@);
        }
    }

    /// Grow the weather series by one zero slot, in step with an appended
    /// forecast time.
    pub fn push_weather_slot(&mut self)
        requires
            old(self).wf(),
        ensures
            final(self).wf(),
            final(self)@ =~= (LocationView {
                coords: old(self)@.coords,
                is_city: old(self)@.is_city,
                sun: old(self)@.sun,
                wx: old(self)@.wx.push(WxSingle::spec_zero()),
            }),
    {
        self.wx.push_zero();
    }
}

} // verus!
