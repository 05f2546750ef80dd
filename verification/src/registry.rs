//! The forecast registry: the single source of truth mapping forecast
//! identifiers to forecast records.
//!
//! Every operation names the record by its identifier. A mutation on an
//! identifier that was never initialised is a silent no-op, never a fault:
//! the boundary this registry serves cannot carry rich errors, so callers
//! must initialise a record before they use it. The registry owns its
//! records outright; readers get an owned snapshot, never a live reference.

use vstd::prelude::*;

use crate::forecast::Forecast;
use crate::forecast::ForecastView;
use crate::lunar_phase::LunarPhase;
use crate::sample::Coords;
use crate::sample::WxSingle;
use crate::sun::Sun;
use crate::text::str_eq;

verus! {

/// No two entries share an identifier.
pub open spec fn unique_ids(s: Seq<(String, Forecast)>) -> bool {
    forall|i: int, j: int| 0 <= i < j < s.len() ==> s[i].0@ != s[j].0@
}

/// Whether some entry has this identifier.
pub open spec fn has_id(s: Seq<(String, Forecast)>, k: Seq<char>) -> bool {
    exists|i: int| 0 <= i < s.len() && s[i].0@ == k
}

/// The position of the entry with this identifier.
pub open spec fn idx_of(s: Seq<(String, Forecast)>, k: Seq<char>) -> int {
    choose|i: int| 0 <= i < s.len() && s[i].0@ == k
}

/// The entries read as a map from identifier to record content.
pub open spec fn map_of(s: Seq<(String, Forecast)>) -> Map<Seq<char>, ForecastView> {
    Map::new(|k: Seq<char>| has_id(s, k), |k: Seq<char>| s[idx_of(s, k)].1@)
}

/// The looked-up position exists and carries the identifier.
proof fn lemma_choose_props(s: Seq<(String, Forecast)>, k: Seq<char>)
    requires
        has_id(s, k),
    ensures
        0 <= idx_of(s, k) < s.len(),
        s[idx_of(s, k)].0@ == k,
{
    assert(exists|i: int| 0 <= i < s.len() && s[i].0@ == k);
}

/// With distinct identifiers, any position holding the identifier is the
/// looked-up position.
pub(crate) proof fn lemma_idx_of(s: Seq<(String, Forecast)>, k: Seq<char>, i: int)
    requires
        unique_ids(s),
        0 <= i < s.len(),
        s[i].0@ == k,
    ensures
        has_id(s, k),
        idx_of(s, k) == i,
{
    assert(has_id(s, k));
    lemma_choose_props(s, k);
    let j = idx_of(s, k);
    if j != i {
        assert(s[i].0@ == s[j].0@);
        assert(false);
    }
}

/// Replacing the entry at a position, identifier kept, reads as a map
/// insert of the new content under that identifier.
proof fn lemma_map_of_update(s: Seq<(String, Forecast)>, i: int, p: (String, Forecast))
    requires
        unique_ids(s),
        0 <= i < s.len(),
        p.0@ == s[i].0@,
    ensures
        unique_ids(s.update(i, p)),
        map_of(s.update(i, p)) =~~= map_of(s).insert(p.0@, p.1@),
{
    let s2 = s.update(i, p);
    assert forall|a: int, b: int| 0 <= a < b < s2.len() implies s2[a].0@ != s2[b].0@ by {
        assert(s[a].0@ != s[b].0@);
    }
    let m1 = map_of(s2);
    let m2 = map_of(s).insert(p.0@, p.1@);
    assert forall|k: Seq<char>| m1.contains_key(k) implies m2.contains_key(k) by {
        lemma_choose_props(s2, k);
        let j = idx_of(s2, k);
        assert(s[j].0@ == k || j == i);
        assert(has_id(s, k) || k == p.0@);
    }
    assert forall|k: Seq<char>| m2.contains_key(k) implies m1.contains_key(k) by {
        if k == p.0@ {
            assert(s2[i].0@ == k);
        } else {
            lemma_choose_props(s, k);
            let j = idx_of(s, k);
            assert(s2[j].0@ == k);
        }
    }
    assert forall|k: Seq<char>| m1.contains_key(k) implies m1[k] == m2[k] by {
        lemma_choose_props(s2, k);
        let j = idx_of(s2, k);
        if k == p.0@ {
            if j != i {
                assert(s2[i].0@ == s2[j].0@);
                assert(unique_ids(s2));
                assert(false);
            }
            assert(m1[k] == p.1@);
        } else {
            assert(j != i);
            assert(s[j].0@ == k);
            lemma_idx_of(s, k, j);
            assert(m1[k] == s[j].1@);
            assert(m2[k] == s[j].1@);
        }
    }
    assert(m1 =~~= m2);
}

/// Appending an entry under a fresh identifier reads as a map insert.
proof fn lemma_map_of_push(s: Seq<(String, Forecast)>, p: (String, Forecast))
    requires
        unique_ids(s),
        !has_id(s, p.0@),
    ensures
        unique_ids(s.push(p)),
        map_of(s.push(p)) =~~= map_of(s).insert(p.0@, p.1@),
{
    let s2 = s.push(p);
    assert forall|a: int, b: int| 0 <= a < b < s2.len() implies s2[a].0@ != s2[b].0@ by {
        if b == s.len() {
            assert(s2[a].0@ == s[a].0@);
            if s[a].0@ == p.0@ {
                assert(has_id(s, p.0@));
            }
        } else {
            assert(s[a].0@ != s[b].0@);
        }
    }
    let m1 = map_of(s2);
    let m2 = map_of(s).insert(p.0@, p.1@);
    assert forall|k: Seq<char>| m1.contains_key(k) implies m2.contains_key(k) by {
        lemma_choose_props(s2, k);
        let j = idx_of(s2, k);
        if j < s.len() {
            assert(s[j].0@ == k);
        }
    }
    assert forall|k: Seq<char>| m2.contains_key(k) implies m1.contains_key(k) by {
        if k == p.0@ {
            assert(s2[s.len() as int].0@ == k);
        } else {
            lemma_choose_props(s, k);
            let j = idx_of(s, k);
            assert(s2[j].0@ == k);
        }
    }
    assert forall|k: Seq<char>| m1.contains_key(k) implies m1[k] == m2[k] by {
        lemma_choose_props(s2, k);
        let j = idx_of(s2, k);
        if k == p.0@ {
            if j < s.len() {
                assert(has_id(s, p.0@));
                assert(false);
            }
            assert(m1[k] == p.1@);
        } else {
            assert(j < s.len());
            assert(s[j].0@ == k);
            lemma_idx_of(s, k, j);
            assert(m1[k] == s[j].1@);
            assert(m2[k] == s[j].1@);
        }
    }
    assert(m1 =~~= m2);
}

/// Taking the entry at a position out reads as a map removal of its
/// identifier.
proof fn lemma_map_of_remove(s: Seq<(String, Forecast)>, i: int)
    requires
        unique_ids(s),
        0 <= i < s.len(),
    ensures
        unique_ids(s.remove(i)),
        map_of(s.remove(i)) =~~= map_of(s).remove(s[i].0@),
{
    let s2 = s.remove(i);
    assert forall|a: int, b: int| 0 <= a < b < s2.len() implies s2[a].0@ != s2[b].0@ by {
        let a0 = if a < i {
            a
        } else {
            a + 1
        };
        let b0 = if b < i {
            b
        } else {
            b + 1
        };
        assert(s2[a].0@ == s[a0].0@);
        assert(s2[b].0@ == s[b0].0@);
        assert(s[a0].0@ != s[b0].0@);
    }
    let m1 = map_of(s2);
    let m2 = map_of(s).remove(s[i].0@);
    assert forall|k: Seq<char>| m1.contains_key(k) implies m2.contains_key(k) by {
        lemma_choose_props(s2, k);
        let j = idx_of(s2, k);
        let j0 = if j < i {
            j
        } else {
            j + 1
        };
        assert(s[j0].0@ == k);
        if k == s[i].0@ {
            assert(s[j0].0@ == s[i].0@ && j0 != i);
            assert(false);
        }
    }
    assert forall|k: Seq<char>| m2.contains_key(k) implies m1.contains_key(k) by {
        lemma_choose_props(s, k);
        let j = idx_of(s, k);
        assert(j != i);
        let j2 = if j < i {
            j
        } else {
            j - 1
        };
        assert(s2[j2].0@ == k);
    }
    assert forall|k: Seq<char>| m1.contains_key(k) implies m1[k] == m2[k] by {
        lemma_choose_props(s2, k);
        let j = idx_of(s2, k);
        let j0 = if j < i {
            j
        } else {
            j + 1
        };
        assert(s[j0].0@ == k);
        lemma_idx_of(s, k, j0);
        assert(m1[k] == s2[j].1@);
        assert(s2[j].1@ == s[j0].1@);
        assert(m2[k] == s[j0].1@);
    }
    assert(m1 =~~= m2);
}

/// The forecast registry: identifier-keyed forecast records.
///
/// Concurrency is the host's concern: a host with several threads guards
/// one registry value behind one mutual-exclusion lock and holds the lock
/// for the full duration of each operation.
pub struct Registry {
    /// The records with their identifiers, one entry per identifier.
    pub entries: Vec<(String, Forecast)>,
}

impl View for Registry {
    type V = Map<Seq<char>, ForecastView>;

    open spec fn view(&self) -> Map<Seq<char>, ForecastView> {
        map_of(self.entries@)
    }
}

impl Registry {
    /// Identifiers are distinct and every record is well formed.
    pub open spec fn wf(&self) -> bool {
        &&& unique_ids(self.entries@)
        &&& forall|i: int|
            0 <= i < self.entries@.len() ==> (#[trigger] self.entries@[i]).1.wf()
    }

    /// An empty registry.
    pub fn new() -> (r: Registry)
        ensures
            r.wf(),
            r@ =~~= Map::<Seq<char>, ForecastView>::empty(),
    {
        let r = Registry { entries: Vec::new() };
        proof {
            assert forall|k: Seq<char>| !r@.contains_key(k) by {
                if has_id(r.entries@, k) {
                    lemma_choose_props(r.entries@, k);
                }
            }
            assert(r@ =~~= Map::<Seq<char>, ForecastView>::empty());
        }
        r
    }

    /// The position of the entry with this identifier, if one exists.
    pub(crate) fn find(&self, id: &str) -> (r: Option<usize>)
        ensures
            match r {
                Some(i) => i < self.entries@.len() && self.entries@[i as int].0@ == id@,
                None => !has_id(self.entries@, id@),
            },
    {
        let mut i: usize = 0;
        while i < self.entries.len()
            invariant
                i <= self.entries@.len(),
                forall|k: int| 0 <= k < i ==> (#[trigger] self.entries@[k]).0@ != id@,
            decreases self.entries@.len() - i,
        {
            let pair: &(String, Forecast) = &self.entries[i];
            if str_eq(pair.0.as_str(), id) {
                return Some(i);
            }
            i = i + 1;
        }
        proof {
            if has_id(self.entries@, id@) {
                lemma_choose_props(self.entries@, id@);
            }
        }
        None
    }

    /// Whether a record exists under this identifier.
    pub fn contains(&self, id: &str) -> (r: bool)
        ensures
            r == self@.contains_key(id@),
    {
        match self.find(id) {
            Some(i) => {
                proof {
                    assert(has_id(self.entries@, id@));
                }
                true
            },
            None => false,
        }
    }

    /// Unconditionally bind a fresh, empty record to this identifier,
    /// discarding any record it had.
    pub fn init(&mut self, id: &str)
        requires
            old(self).wf(),
        ensures
            final(self).wf(),
            final(self)@ =~~= old(self)@.insert(id@, ForecastView::empty()),
    {
        match self.find(id) {
            Some(i) => {
                let pair = self.entries.remove(i);
                self.entries.insert(i, (pair.0, Forecast::new()));
                proof {
                    let s = old(self).entries@;
                    let p = self.entries@[i as int];
                    assert(self.entries@ =~= s.update(i as int, p));
                    lemma_map_of_update(s, i as int, p);
                    assert(final(self)@ =~~= old(self)@.insert(id@, ForecastView::empty()));
                }
            },
            None => {
                self.entries.push((id.to_owned(), Forecast::new()));
                proof {
                    let s = old(self).entries@;
                    let p = self.entries@[s.len() as int];
                    assert(self.entries@ =~= s.push(p));
                    lemma_map_of_push(s, p);
                    assert(final(self)@ =~~= old(self)@.insert(id@, ForecastView::empty()));
                }
            },
        }
    }

    /// The number of forecast times of the record under this identifier, or
    /// `None` for an unknown identifier.
    pub fn times_len(&self, id: &str) -> (r: Option<usize>)
        requires
            self.wf(),
        ensures
            match r {
                Some(n) => self@.contains_key(id@) && n == self@[id@].times.len(),
                None => !self@.contains_key(id@),
            },
    {
        match self.find(id) {
            Some(i) => {
                proof {
                    lemma_idx_of(self.entries@, id@, i as int);
                }
                let pair: &(String, Forecast) = &self.entries[i];
                Some(pair.1.times_len())
            },
            None => None,
        }
    }

    /// Whether the record under this identifier exists and has a location
    /// under this name.
    pub fn has_location(&self, id: &str, name: &str) -> (r: bool)
        requires
            self.wf(),
        ensures
            r == (self@.contains_key(id@) && self@[id@].loc_has(name@)),
    {
        match self.find(id) {
            Some(i) => {
                proof {
                    lemma_idx_of(self.entries@, id@, i as int);
                }
                let pair: &(String, Forecast) = &self.entries[i];
                pair.1.has_location(name)
            },
            None => false,
        }
    }

    /// Append one forecast time to the record under this identifier; every
    /// location's weather series grows by one zero slot with it. An unknown
    /// identifier changes nothing.
    pub fn append_forecast_time(&mut self, id: &str, t: u64)
        requires
            old(self).wf(),
        ensures
            final(self).wf(),
            old(self)@.contains_key(id@) ==> final(self)@ =~~= old(self)@.insert(
                id@,
                old(self)@[id@].spec_append_time(t),
            ),
            !old(self)@.contains_key(id@) ==> final(self)@ =~~= old(self)@,
    {
        match self.find(id) {
            Some(i) => {
                proof {
                    lemma_idx_of(old(self).entries@, id@, i as int);
                }
                let mut pair = self.entries.remove(i);
                pair.1.append_time(t);
                self.entries.insert(i, pair);
                proof {
                    let s = old(self).entries@;
                    let p = self.entries@[i as int];
                    assert(self.entries@ =~= s.update(i as int, p));
                    lemma_map_of_update(s, i as int, p);
                    assert(final(self)@ =~~= old(self)@.insert(
                        id@,
                        old(self)@[id@].spec_append_time(t),
                    ));
                }
            },
            None => {},
        }
    }

    /// Insert or overwrite the lunar phase for one day of the record under
    /// this identifier. An unknown identifier changes nothing.
    pub fn set_lunar_phase(&mut self, id: &str, day: i32, phase: LunarPhase)
        requires
            old(self).wf(),
        ensures
            final(self).wf(),
            old(self)@.contains_key(id@) ==> final(self)@ =~~= old(self)@.insert(
                id@,
                old(self)@[id@].spec_set_phase(day, phase),
            ),
            !old(self)@.contains_key(id@) ==> final(self)@ =~~= old(self)@,
    {
        match self.find(id) {
            Some(i) => {
                proof {
                    lemma_idx_of(old(self).entries@, id@, i as int);
                }
                let mut pair = self.entries.remove(i);
                pair.1.set_lunar_phase(day, phase);
                self.entries.insert(i, pair);
                proof {
                    let s = old(self).entries@;
                    let p = self.entries@[i as int];
                    assert(self.entries@ =~= s.update(i as int, p));
                    lemma_map_of_update(s, i as int, p);
                    assert(final(self)@ =~~= old(self)@.insert(
                        id@,
                        old(self)@[id@].spec_set_phase(day, phase),
                    ));
                }
            },
            None => {},
        }
    }

    /// Create the named location of the record under this identifier if it
    /// is absent, then overwrite its coordinates and city flag. An unknown
    /// identifier changes nothing.
    pub fn upsert_location(&mut self, id: &str, name: &str, coords: Coords, is_city: bool)
        requires
            old(self).wf(),
        ensures
            final(self).wf(),
            old(self)@.contains_key(id@) ==> final(self)@ =~~= old(self)@.insert(
                id@,
                old(self)@[id@].spec_upsert_location(name@, coords, is_city),
            ),
            !old(self)@.contains_key(id@) ==> final(self)@ =~~= old(self)@,
    {
        match self.find(id) {
            Some(i) => {
                proof {
                    lemma_idx_of(old(self).entries@, id@, i as int);
                }
                let mut pair = self.entries.remove(i);
                pair.1.upsert_location(name, coords, is_city);
                self.entries.insert(i, pair);
                proof {
                    let s = old(self).entries@;
                    let p = self.entries@[i as int];
                    assert(self.entries@ =~= s.update(i as int, p));
                    lemma_map_of_update(s, i as int, p);
                    assert(final(self)@ =~~= old(self)@.insert(
                        id@,
                        old(self)@[id@].spec_upsert_location(name@, coords, is_city),
                    ));
                }
            },
            None => {},
        }
    }

    /// Insert or overwrite the sun times for one day of an existing location
    /// of the record under this identifier. The location must already exist
    /// wherever the record does; an unknown identifier changes nothing.
    pub fn set_sun_times(&mut self, id: &str, name: &str, day: i32, sun: Sun)
        requires
            old(self).wf(),
            old(self)@.contains_key(id@) ==> old(self)@[id@].loc_has(name@),
        ensures
            final(self).wf(),
            old(self)@.contains_key(id@) ==> final(self)@ =~~= old(self)@.insert(
                id@,
                old(self)@[id@].spec_set_sun(name@, day, sun),
            ),
            !old(self)@.contains_key(id@) ==> final(self)@ =~~= old(self)@,
    {
        match self.find(id) {
            Some(i) => {
                proof {
                    lemma_idx_of(old(self).entries@, id@, i as int);
                }
                let mut pair = self.entries.remove(i);
                pair.1.set_sun_times(name, day, sun);
                self.entries.insert(i, pair);
                proof {
                    let s = old(self).entries@;
                    let p = self.entries@[i as int];
                    assert(self.entries@ =~= s.update(i as int, p));
                    lemma_map_of_update(s, i as int, p);
                    assert(final(self)@ =~~= old(self)@.insert(
                        id@,
                        old(self)@[id@].spec_set_sun(name@, day, sun),
                    ));
                }
            },
            None => {},
        }
    }

    /// Write one weather sample at its slot for the named location of the
    /// record under this identifier, creating the location first if it is
    /// absent. A slot at or past the end of the record's forecast-time axis
    /// is a caller error, never a silent drop. An unknown identifier changes
    /// nothing.
    pub fn set_weather_at(&mut self, id: &str, name: &str, at: usize, sample: &WxSingle)
        requires
            old(self).wf(),
            old(self)@.contains_key(id@) ==> at < old(self)@[id@].times.len(),
        ensures
            final(self).wf(),
            old(self)@.contains_key(id@) ==> final(self)@ =~~= old(self)@.insert(
                id@,
                old(self)@[id@].spec_set_weather_at(name@, at as int, *sample),
            ),
            !old(self)@.contains_key(id@) ==> final(self)@ =~~= old(self)@,
    {
        match self.find(id) {
            Some(i) => {
                proof {
                    lemma_idx_of(old(self).entries@, id@, i as int);
                }
                let mut pair = self.entries.remove(i);
                pair.1.set_weather_at(name, at, sample);
                self.entries.insert(i, pair);
                proof {
                    let s = old(self).entries@;
                    let p = self.entries@[i as int];
                    assert(self.entries@ =~= s.update(i as int, p));
                    lemma_map_of_update(s, i as int, p);
                    assert(final(self)@ =~~= old(self)@.insert(
                        id@,
                        old(self)@[id@].spec_set_weather_at(name@, at as int, *sample),
                    ));
                }
            },
            None => {},
        }
    }

    /// Write a run of weather samples at their positional slots for the
    /// named location of the record under this identifier, creating the
    /// location first if it is absent. The run may not be longer than the
    /// record's forecast-time axis. An unknown identifier changes nothing.
    pub fn import_weather(&mut self, id: &str, name: &str, samples: &Vec<WxSingle>)
        requires
            old(self).wf(),
            old(self)@.contains_key(id@) ==> samples@.len() <= old(self)@[id@].times.len(),
        ensures
            final(self).wf(),
            old(self)@.contains_key(id@) ==> final(self)@ =~~= old(self)@.insert(
                id@,
                old(self)@[id@].spec_import_weather(name@, samples@),
            ),
            !old(self)@.contains_key(id@) ==> final(self)@ =~~= old(self)@,
    {
        match self.find(id) {
            Some(i) => {
                proof {
                    lemma_idx_of(old(self).entries@, id@, i as int);
                }
                let mut pair = self.entries.remove(i);
                pair.1.import_weather(name, samples);
                self.entries.insert(i, pair);
                proof {
                    let s = old(self).entries@;
                    let p = self.entries@[i as int];
                    assert(self.entries@ =~= s.update(i as int, p));
                    lemma_map_of_update(s, i as int, p);
                    assert(final(self)@ =~~= old(self)@.insert(
                        id@,
                        old(self)@[id@].spec_import_weather(name@, samples@),
                    ));
                }
            },
            None => {},
        }
    }

    /// Take in a whole foreign-supplied location at once for the record
    /// under this identifier: create the location if absent, overwrite its
    /// coordinates and city flag, upsert each sun entry in order, and write
    /// the weather run positionally. The run may not be longer than the
    /// record's forecast-time axis. An unknown identifier changes nothing.
    pub fn import_location(
        &mut self,
        id: &str,
        name: &str,
        coords: Coords,
        is_city: bool,
        suns: &Vec<(i32, Sun)>,
        samples: &Vec<WxSingle>,
    )
        requires
            old(self).wf(),
            old(self)@.contains_key(id@) ==> samples@.len() <= old(self)@[id@].times.len(),
        ensures
            final(self).wf(),
            old(self)@.contains_key(id@) ==> final(self)@ =~~= old(self)@.insert(
                id@,
                old(self)@[id@].spec_import_location(name@, coords, is_city, suns@, samples@),
            ),
            !old(self)@.contains_key(id@) ==> final(self)@ =~~= old(self)@,
    {
        match self.find(id) {
            Some(i) => {
                proof {
                    lemma_idx_of(old(self).entries@, id@, i as int);
                }
                let mut pair = self.entries.remove(i);
                pair.1.import_location(name, coords, is_city, suns, samples);
                self.entries.insert(i, pair);
                proof {
                    let s = old(self).entries@;
                    let p = self.entries@[i as int];
                    assert(self.entries@ =~= s.update(i as int, p));
                    lemma_map_of_update(s, i as int, p);
                    assert(final(self)@ =~~= old(self)@.insert(
                        id@,
                        old(self)@[id@].spec_import_location(
                            name@,
                            coords,
                            is_city,
                            suns@,
                            samples@,
                        ),
                    ));
                }
            },
            None => {},
        }
    }

    /// Bind a whole record to this identifier, discarding any record it had.
    /// Loading a record from persistent storage ends here.
    pub fn put_record(&mut self, id: &str, f: Forecast)
        requires
            old(self).wf(),
            f.wf(),
        ensures
            final(self).wf(),
            final(self)@ =~~= old(self)@.insert(id@, f@),
    {
        match self.find(id) {
            Some(i) => {
                let pair = self.entries.remove(i);
                self.entries.insert(i, (pair.0, f));
                proof {
                    let s = old(self).entries@;
                    let p = self.entries@[i as int];
                    assert(self.entries@ =~= s.update(i as int, p));
                    lemma_map_of_update(s, i as int, p);
                    assert(final(self)@ =~~= old(self)@.insert(id@, f@));
                }
            },
            None => {
                self.entries.push((id.to_owned(), f));
                proof {
                    let s = old(self).entries@;
                    let p = self.entries@[s.len() as int];
                    assert(self.entries@ =~= s.push(p));
                    lemma_map_of_push(s, p);
                    assert(final(self)@ =~~= old(self)@.insert(id@, f@));
                }
            },
        }
    }

    /// Remove the record under this identifier, if any; removing an unknown
    /// identifier changes nothing.
    pub fn destroy(&mut self, id: &str)
        requires
            old(self).wf(),
        ensures
            final(self).wf(),
            final(self)@ =~~= old(self)@.remove(id@),
    {
        match self.find(id) {
            Some(i) => {
                let _ = self.entries.remove(i);
                proof {
                    lemma_map_of_remove(old(self).entries@, i as int);
                }
            },
            None => {
                proof {
                    assert(!old(self)@.contains_key(id@));
                    assert(final(self)@ =~~= old(self)@.remove(id@));
                }
            },
        }
    }
}

} // verus!
