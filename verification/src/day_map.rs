//! Day-keyed tables, stored as vectors of `(day, value)` pairs kept
//! strictly sorted by day.
//!
//! Sun times and lunar phases are both keyed by a day number. At most one
//! entry exists per day and a later write overwrites the earlier one. The
//! entries are kept in ascending day order, which on two-digit zero-padded
//! day keys is the same order a lexicographically sorted rendering gives.

use vstd::prelude::*;

verus! {

/// The days strictly ascend, so each day appears at most once.
pub open spec fn day_sorted<T>(s: Seq<(i32, T)>) -> bool {
    forall|i: int, j: int| 0 <= i < j < s.len() ==> s[i].0 < s[j].0
}

/// Insert-or-overwrite into a day-sorted table: the entry for `day` becomes
/// `value`, every other entry stays, and the ascending order is kept.
pub open spec fn spec_day_upsert<T>(s: Seq<(i32, T)>, day: i32, value: T) -> Seq<(i32, T)>
    decreases s.len(),
{
    if s.len() == 0 {
        seq![(day, value)]
    } else if day < s[0].0 {
        seq![(day, value)] + s
    } else if day == s[0].0 {
        seq![(day, value)] + s.drop_first()
    } else {
        seq![s[0]] + spec_day_upsert(s.drop_first(), day, value)
    }
}

/// The value stored for a day, or `None` when the day has no entry.
pub open spec fn spec_day_lookup<T>(s: Seq<(i32, T)>, day: i32) -> Option<T>
    decreases s.len(),
{
    if s.len() == 0 {
        None
    } else if s[0].0 == day {
        Some(s[0].1)
    } else {
        spec_day_lookup(s.drop_first(), day)
    }
}

/// Where an upsert lands: when every entry before `i` has a smaller day and
/// the entry at `i` (if any) has a day at least as large, the upsert is an
/// overwrite at `i` on an exact day match and an insertion at `i` otherwise.
proof fn lemma_day_upsert_at<T>(s: Seq<(i32, T)>, day: i32, value: T, i: int)
    requires
        0 <= i <= s.len(),
        forall|k: int| 0 <= k < i ==> s[k].0 < day,
        i < s.len() ==> s[i].0 >= day,
    ensures
        i < s.len() && s[i].0 == day ==> spec_day_upsert(s, day, value) =~= s.update(
            i,
            (day, value),
        ),
        (i == s.len() || s[i].0 > day) ==> spec_day_upsert(s, day, value) =~= s.insert(
            i,
            (day, value),
        ),
    decreases s.len(),
{
    if i == 0 {
        if s.len() == 0 {
            assert(spec_day_upsert(s, day, value) =~= s.insert(0, (day, value)));
        } else if s[0].0 == day {
            assert(spec_day_upsert(s, day, value) =~= s.update(0, (day, value)));
        } else {
            assert(spec_day_upsert(s, day, value) =~= s.insert(0, (day, value)));
        }
    } else {
        let rest = s.drop_first();
        assert(forall|k: int| 0 <= k < i - 1 ==> rest[k].0 < day);
        lemma_day_upsert_at(rest, day, value, i - 1);
        if i < s.len() && s[i].0 == day {
            assert(spec_day_upsert(s, day, value) =~= seq![s[0]] + rest.update(
                i - 1,
                (day, value),
            ));
            assert(spec_day_upsert(s, day, value) =~= s.update(i, (day, value)));
        } else {
            assert(spec_day_upsert(s, day, value) =~= seq![s[0]] + rest.insert(
                i - 1,
                (day, value),
            ));
            assert(spec_day_upsert(s, day, value) =~= s.insert(i, (day, value)));
        }
    }
}

/// Insert-or-overwrite into a day-sorted vector.
pub fn day_upsert<T: Copy>(v: &mut Vec<(i32, T)>, day: i32, value: T)
    requires
        day_sorted(old(v)@),
    ensures
        day_sorted(final(v)@),
        final(v)@ =~= spec_day_upsert(old(v)@, day, value),
{
    let mut i: usize = 0;
    while i < v.len() && v[i].0 < day
        invariant
            i <= v@.len(),
            forall|k: int| 0 <= k < i ==> v@[k].0 < day,
            *v == *old(v),
        decreases v@.len() - i,
    {
        i = i + 1;
    }
    proof {
        lemma_day_upsert_at(v@, day, value, i as int);
    }
    if i < v.len() && v[i].0 == day {
        v.set(i, (day, value));
        assert(day_sorted(v@)) by {
            assert(forall|a: int, b: int|
                0 <= a < b < v@.len() ==> v@[a].0 < v@[b].0);
        }
    } else {
        v.insert(i, (day, value));
        assert(day_sorted(v@)) by {
            assert(forall|a: int, b: int|
                0 <= a < b < v@.len() ==> v@[a].0 < v@[b].0);
        }
    }
}

/// Upserting writes the given day and leaves every other day's entry as it
/// was.
pub proof fn lemma_day_upsert_lookup<T>(s: Seq<(i32, T)>, day: i32, value: T, d: i32)
    requires
        day_sorted(s),
    ensures
        spec_day_lookup(spec_day_upsert(s, day, value), d) == if d == day {
            Some(value)
        } else {
            spec_day_lookup(s, d)
        },
    decreases s.len(),
{
    if s.len() == 0 {
    } else if day < s[0].0 {
        assert(spec_day_upsert(s, day, value).drop_first() =~= s);
    } else if day == s[0].0 {
        assert(spec_day_upsert(s, day, value).drop_first() =~= s.drop_first());
    } else {
        let rest = s.drop_first();
        lemma_day_upsert_lookup(rest, day, value, d);
        assert(spec_day_upsert(s, day, value).drop_first() =~= spec_day_upsert(rest, day, value));
    }
}

} // verus!
