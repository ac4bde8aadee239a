//! Calendar: calendar-id defaults, the free-slot search behind `team`, and
//! the attendee update behind `respond`.

use crate::error::{Error, Result};
use crate::text::{clone_opt_string, lemma_le_trans, lemma_lex_irreflexive, lemma_lt_le, lex_le, lex_lt, str_lt};
use crate::types::calendar::EventAttendee;
use vstd::prelude::*;
use vstd::string::StrSliceExecFns;

use crate::auth::oauth2::pair_views;
use crate::http::query::{paged_url, paging_params, add_encoded, add_number, add_param, enc, enc_opt, num_opt, opt_param, query_of, url_with_query};
use crate::text::urlencoding;
use vstd::string::StringExecFns;

verus! {

/// A time interval as a pair of RFC 3339 timestamps (start, end).
pub type Interval = (String, String);

/// Views of intervals.
pub open spec fn interval_views(s: Seq<Interval>) -> Seq<(Seq<char>, Seq<char>)> {
    s.map_values(|iv: Interval| (iv.0@, iv.1@))
}

/// Inserts `x` into a list sorted by start, after every element whose start
/// is not greater than its own (so equal starts keep their arrival order).
pub open spec fn insert_by_start(
    s: Seq<(Seq<char>, Seq<char>)>,
    x: (Seq<char>, Seq<char>),
) -> Seq<(Seq<char>, Seq<char>)>
    decreases s.len(),
{
    if s.len() == 0 {
        seq![x]
    } else if lex_lt(x.0, s.last().0) {
        insert_by_start(s.drop_last(), x).push(s.last())
    } else {
        s.push(x)
    }
}

/// The intervals stably sorted by start time.
pub open spec fn sort_by_start(s: Seq<(Seq<char>, Seq<char>)>) -> Seq<(Seq<char>, Seq<char>)>
    decreases s.len(),
{
    if s.len() == 0 {
        s
    } else {
        insert_by_start(sort_by_start(s.drop_last()), s.last())
    }
}

/// Sorted intervals with overlapping (or touching) neighbours merged: an
/// interval that starts no later than the previous merged end extends it.
pub open spec fn merge_overlaps(s: Seq<(Seq<char>, Seq<char>)>) -> Seq<(Seq<char>, Seq<char>)>
    decreases s.len(),
{
    if s.len() == 0 {
        s
    } else {
        let m = merge_overlaps(s.drop_last());
        let iv = s.last();
        if m.len() > 0 && lex_le(iv.0, m.last().1) {
            if lex_lt(m.last().1, iv.1) {
                m.update(m.len() - 1, (m.last().0, iv.1))
            } else {
                m
            }
        } else {
            m.push(iv)
        }
    }
}

/// Walking merged busy intervals from `time_min`: the gaps found so far and
/// the time from which the next gap would start.
pub open spec fn gap_walk(
    merged: Seq<(Seq<char>, Seq<char>)>,
    time_min: Seq<char>,
) -> (Seq<(Seq<char>, Seq<char>)>, Seq<char>)
    decreases merged.len(),
{
    if merged.len() == 0 {
        (Seq::empty(), time_min)
    } else {
        let (slots, cur) = gap_walk(merged.drop_last(), time_min);
        let (bs, be) = merged.last();
        let slots2 = if lex_lt(cur, bs) {
            slots.push((cur, bs))
        } else {
            slots
        };
        let cur2 = if lex_lt(cur, be) {
            be
        } else {
            cur
        };
        (slots2, cur2)
    }
}

/// The free windows between `time_min` and `time_max` around the busy
/// intervals: sort by start, merge overlaps, take the gaps, and close with
/// the window after the last busy time when it ends before `time_max`.
pub open spec fn free_windows(
    busy: Seq<(Seq<char>, Seq<char>)>,
    time_min: Seq<char>,
    time_max: Seq<char>,
) -> Seq<(Seq<char>, Seq<char>)> {
    let (slots, cur) = gap_walk(merge_overlaps(sort_by_start(busy)), time_min);
    if lex_lt(cur, time_max) {
        slots.push((cur, time_max))
    } else {
        slots
    }
}

fn copy_interval(iv: &Interval) -> (r: Interval)
    ensures
        r.0@ == iv.0@,
        r.1@ == iv.1@,
{
    (iv.0.clone(), iv.1.clone())
}

/// Inserts `x` into `sorted` as `insert_by_start` does.
fn insert_sorted(sorted: &mut Vec<Interval>, x: Interval)
    ensures
        interval_views(final(sorted)@) == insert_by_start(interval_views(old(sorted)@), (x.0@, x.1@)),
{
    let ghost s = interval_views(sorted@);
    let ghost xv = (x.0@, x.1@);
    let mut j = sorted.len();
    assert(s.take(j as int) =~= s);
    assert(s.skip(j as int) =~= Seq::<(Seq<char>, Seq<char>)>::empty());
    while j > 0 && str_lt(x.0.as_str(), sorted[j - 1].0.as_str())
        invariant
            xv == (x.0@, x.1@),
            j <= sorted@.len(),
            s == interval_views(sorted@),
            insert_by_start(s, xv) == insert_by_start(s.take(j as int), xv) + s.skip(j as int),
        decreases j,
    {
        assert(s.take(j as int).last() == s[j - 1]);
        assert(s[j - 1] == (sorted@[j - 1].0@, sorted@[j - 1].1@));
        assert(lex_lt(xv.0, s.take(j as int).last().0));
        assert(s.take(j as int).drop_last() =~= s.take(j - 1));
        assert(insert_by_start(s.take(j as int), xv) == insert_by_start(s.take(j - 1), xv).push(
            s[j - 1],
        ));
        assert(s.skip(j - 1) =~= seq![s[j - 1]] + s.skip(j as int));
        assert(insert_by_start(s.take(j - 1), xv).push(s[j - 1]) + s.skip(j as int)
            =~= insert_by_start(s.take(j - 1), xv) + s.skip(j - 1));
        j = j - 1;
    }
    if j > 0 {
        assert(s.take(j as int).last() == s[j - 1]);
    }
    assert(insert_by_start(s.take(j as int), xv) =~= s.take(j as int).push(xv));
    sorted.insert(j, x);
    assert(interval_views(sorted@) =~= s.take(j as int).push(xv) + s.skip(j as int));
}

/// Stably sorts intervals by start time.
pub fn sort_intervals(busy: &Vec<Interval>) -> (r: Vec<Interval>)
    ensures
        interval_views(r@) == sort_by_start(interval_views(busy@)),
{
    let ghost b = interval_views(busy@);
    let mut out: Vec<Interval> = Vec::new();
    let mut i: usize = 0;
    while i < busy.len()
        invariant
            i <= busy@.len(),
            b == interval_views(busy@),
            interval_views(out@) == sort_by_start(b.take(i as int)),
        decreases busy.len() - i,
    {
        assert(b.take(i + 1).drop_last() =~= b.take(i as int));
        assert(b.take(i + 1).last() == b[i as int]);
        insert_sorted(&mut out, copy_interval(&busy[i]));
        i = i + 1;
    }
    assert(b.take(busy@.len() as int) =~= b);
    out
}

/// Merges overlapping neighbours of sorted intervals.
pub fn merge_intervals(sorted: &Vec<Interval>) -> (r: Vec<Interval>)
    ensures
        interval_views(r@) == merge_overlaps(interval_views(sorted@)),
{
    let ghost s = interval_views(sorted@);
    let mut merged: Vec<Interval> = Vec::new();
    let mut i: usize = 0;
    while i < sorted.len()
        invariant
            i <= sorted@.len(),
            s == interval_views(sorted@),
            interval_views(merged@) == merge_overlaps(s.take(i as int)),
        decreases sorted.len() - i,
    {
        assert(s.take(i + 1).drop_last() =~= s.take(i as int));
        assert(s.take(i + 1).last() == s[i as int]);
        assert(s[i as int] == (sorted@[i as int].0@, sorted@[i as int].1@));
        let ghost before = interval_views(merged@);
        let n = merged.len();
        if n > 0 && !str_lt(merged[n - 1].1.as_str(), sorted[i].0.as_str()) {
            if str_lt(merged[n - 1].1.as_str(), sorted[i].1.as_str()) {
                let start = merged[n - 1].0.clone();
                merged.set(n - 1, (start, sorted[i].1.clone()));
                assert(interval_views(merged@) =~= before.update(
                    before.len() - 1,
                    (before.last().0, s[i as int].1),
                ));
            }
        } else {
            merged.push(copy_interval(&sorted[i]));
            assert(interval_views(merged@) =~= before.push(s[i as int]));
        }
        i = i + 1;
    }
    assert(s.take(sorted@.len() as int) =~= s);
    merged
}

/// The free windows between `time_min` and `time_max` around the busy
/// intervals (see `free_windows`).
pub fn free_slots(busy: &Vec<Interval>, time_min: &str, time_max: &str) -> (r: Vec<Interval>)
    ensures
        interval_views(r@) == free_windows(interval_views(busy@), time_min@, time_max@),
{
    let sorted = sort_intervals(busy);
    let merged = merge_intervals(&sorted);
    let ghost m = interval_views(merged@);
    let mut slots: Vec<Interval> = Vec::new();
    let mut current = time_min.to_owned();
    let mut i: usize = 0;
    while i < merged.len()
        invariant
            i <= merged@.len(),
            m == interval_views(merged@),
            (interval_views(slots@), current@) == gap_walk(m.take(i as int), time_min@),
        decreases merged.len() - i,
    {
        assert(m.take(i + 1).drop_last() =~= m.take(i as int));
        assert(m.take(i + 1).last() == m[i as int]);
        let ghost before = interval_views(slots@);
        if str_lt(current.as_str(), merged[i].0.as_str()) {
            slots.push((current.clone(), merged[i].0.clone()));
            assert(interval_views(slots@) =~= before.push((current@, m[i as int].0)));
        }
        if str_lt(current.as_str(), merged[i].1.as_str()) {
            current = merged[i].1.clone();
        }
        i = i + 1;
    }
    assert(m.take(merged@.len() as int) =~= m);
    if str_lt(current.as_str(), time_max) {
        let ghost before = interval_views(slots@);
        slots.push((current, time_max.to_owned()));
        assert(interval_views(slots@) =~= before.push((gap_walk(m, time_min@).1, time_max@)));
    }
    slots
}

/// Every gap found by walking busy intervals is a proper window: it starts
/// strictly before it ends.
pub proof fn lemma_gap_walk_proper(merged: Seq<(Seq<char>, Seq<char>)>, time_min: Seq<char>)
    ensures
        forall|k: int|
            0 <= k < gap_walk(merged, time_min).0.len() ==> lex_lt(
                #[trigger] gap_walk(merged, time_min).0[k].0,
                gap_walk(merged, time_min).0[k].1,
            ),
    decreases merged.len(),
{
    if merged.len() > 0 {
        lemma_gap_walk_proper(merged.drop_last(), time_min);
        let (slots, cur) = gap_walk(merged.drop_last(), time_min);
        let (bs, be) = merged.last();
        let r = gap_walk(merged, time_min).0;
        assert forall|k: int| 0 <= k < r.len() implies lex_lt(#[trigger] r[k].0, r[k].1) by {
            if k < slots.len() {
                assert(r[k] == slots[k]);
            }
        }
    }
}

/// Every free window returned by the free-slot search starts strictly
/// before it ends.
pub proof fn lemma_free_windows_proper(
    busy: Seq<(Seq<char>, Seq<char>)>,
    time_min: Seq<char>,
    time_max: Seq<char>,
)
    ensures
        forall|k: int|
            0 <= k < free_windows(busy, time_min, time_max).len() ==> lex_lt(
                #[trigger] free_windows(busy, time_min, time_max)[k].0,
                free_windows(busy, time_min, time_max)[k].1,
            ),
{
    let merged = merge_overlaps(sort_by_start(busy));
    lemma_gap_walk_proper(merged, time_min);
}

/// Sorted by start time.
pub open spec fn sorted_by_start(s: Seq<(Seq<char>, Seq<char>)>) -> bool {
    forall|i: int, j: int| #![trigger s[i], s[j]] 0 <= i < j < s.len() ==> lex_le(s[i].0, s[j].0)
}

proof fn lemma_insert_by_start(t: Seq<(Seq<char>, Seq<char>)>, x: (Seq<char>, Seq<char>))
    requires
        sorted_by_start(t),
    ensures
        sorted_by_start(insert_by_start(t, x)),
        insert_by_start(t, x).contains(x),
        forall|e: (Seq<char>, Seq<char>)| t.contains(e) ==> insert_by_start(t, x).contains(e),
        forall|e: (Seq<char>, Seq<char>)|
            insert_by_start(t, x).contains(e) ==> e == x || t.contains(e),
    decreases t.len(),
{
    let r = insert_by_start(t, x);
    if t.len() == 0 {
        assert(r[0] == x);
        assert forall|e: (Seq<char>, Seq<char>)| r.contains(e) implies e == x || t.contains(e) by {
            let k = choose|k: int| 0 <= k < r.len() && r[k] == e;
            assert(k == 0);
        }
    } else if lex_lt(x.0, t.last().0) {
        let p = t.drop_last();
        let q = insert_by_start(p, x);
        let l = t.last();
        assert(sorted_by_start(p)) by {
            assert forall|i: int, j: int| 0 <= i < j < p.len() implies lex_le(p[i].0, p[j].0) by {
                assert(p[i] == t[i] && p[j] == t[j]);
            }
        }
        lemma_insert_by_start(p, x);
        assert(r == q.push(l));
        assert forall|i: int, j: int| #![trigger r[i], r[j]] 0 <= i < j < r.len() implies lex_le(r[i].0, r[j].0) by {
            if j == r.len() - 1 {
                assert(q.contains(r[i]));
                if r[i] == x {
                    lemma_lt_le(x.0, l.0);
                } else {
                    assert(p.contains(r[i]));
                    let a = choose|a: int| 0 <= a < p.len() && p[a] == r[i];
                    assert(t[a] == r[i]);
                    assert(t[t.len() - 1] == l);
                }
            } else {
                assert(r[i] == q[i] && r[j] == q[j]);
            }
        }
        assert(q.contains(x));
        let kx = choose|k: int| 0 <= k < q.len() && q[k] == x;
        assert(r[kx] == x);
        assert forall|e: (Seq<char>, Seq<char>)| t.contains(e) implies r.contains(e) by {
            let a = choose|a: int| 0 <= a < t.len() && t[a] == e;
            if a == t.len() - 1 {
                assert(r[r.len() - 1] == e);
            } else {
                assert(p[a] == e);
                assert(p.contains(e));
                let b = choose|b: int| 0 <= b < q.len() && q[b] == e;
                assert(r[b] == e);
            }
        }
        assert forall|e: (Seq<char>, Seq<char>)| r.contains(e) implies e == x || t.contains(e) by {
            let k = choose|k: int| 0 <= k < r.len() && r[k] == e;
            if k == r.len() - 1 {
                assert(t[t.len() - 1] == e);
            } else {
                assert(q[k] == e);
                assert(q.contains(e));
                if e != x {
                    assert(p.contains(e));
                    let a = choose|a: int| 0 <= a < p.len() && p[a] == e;
                    assert(t[a] == e);
                }
            }
        }
    } else {
        assert(r == t.push(x));
        assert forall|i: int, j: int| #![trigger r[i], r[j]] 0 <= i < j < r.len() implies lex_le(r[i].0, r[j].0) by {
            if j == r.len() - 1 {
                assert(r[j] == x);
                if i < t.len() - 1 {
                    assert(r[i] == t[i]);
                    assert(lex_le(t[i].0, t[t.len() - 1].0));
                    lemma_le_trans(t[i].0, t[t.len() - 1].0, x.0);
                }
            } else {
                assert(r[i] == t[i] && r[j] == t[j]);
            }
        }
        assert(r[r.len() - 1] == x);
        assert forall|e: (Seq<char>, Seq<char>)| t.contains(e) implies r.contains(e) by {
            let a = choose|a: int| 0 <= a < t.len() && t[a] == e;
            assert(r[a] == e);
        }
        assert forall|e: (Seq<char>, Seq<char>)| r.contains(e) implies e == x || t.contains(e) by {
            let k = choose|k: int| 0 <= k < r.len() && r[k] == e;
            if k < t.len() {
                assert(t[k] == e);
            }
        }
    }
}

/// Sorting by start orders the intervals by start time, keeps every one of
/// them and adds none.
pub proof fn lemma_sort_by_start(s: Seq<(Seq<char>, Seq<char>)>)
    ensures
        sorted_by_start(sort_by_start(s)),
        forall|e: (Seq<char>, Seq<char>)| s.contains(e) ==> sort_by_start(s).contains(e),
        forall|e: (Seq<char>, Seq<char>)| sort_by_start(s).contains(e) ==> s.contains(e),
    decreases s.len(),
{
    if s.len() > 0 {
        let p = s.drop_last();
        lemma_sort_by_start(p);
        lemma_insert_by_start(sort_by_start(p), s.last());
        assert forall|e: (Seq<char>, Seq<char>)| sort_by_start(s).contains(e) implies s.contains(e) by {
            if e == s.last() {
                assert(s[s.len() - 1] == e);
            } else {
                assert(p.contains(e));
                let a = choose|a: int| 0 <= a < p.len() && p[a] == e;
                assert(s[a] == e);
            }
        }
        assert forall|e: (Seq<char>, Seq<char>)| s.contains(e) implies sort_by_start(s).contains(e) by {
            let a = choose|a: int| 0 <= a < s.len() && s[a] == e;
            if a < s.len() - 1 {
                assert(p[a] == e);
                assert(p.contains(e));
            }
        }
    }
}

/// Whether interval `iv` lies within interval `m`.
pub open spec fn within(iv: (Seq<char>, Seq<char>), m: (Seq<char>, Seq<char>)) -> bool {
    lex_le(m.0, iv.0) && lex_le(iv.1, m.1)
}

proof fn lemma_merge_overlaps(s: Seq<(Seq<char>, Seq<char>)>)
    requires
        sorted_by_start(s),
    ensures
        sorted_by_start(merge_overlaps(s)),
        forall|k: int|
            0 <= k < merge_overlaps(s).len() ==> exists|i: int|
                0 <= i < s.len() && #[trigger] merge_overlaps(s)[k].0 == s[i].0,
        forall|i: int|
            0 <= i < s.len() ==> exists|k: int|
                0 <= k < merge_overlaps(s).len() && within(#[trigger] s[i], merge_overlaps(s)[k]),
    decreases s.len(),
{
    if s.len() > 0 {
        let p = s.drop_last();
        assert(sorted_by_start(p)) by {
            assert forall|i: int, j: int| 0 <= i < j < p.len() implies lex_le(p[i].0, p[j].0) by {
                assert(p[i] == s[i] && p[j] == s[j]);
            }
        }
        lemma_merge_overlaps(p);
        let mp = merge_overlaps(p);
        let iv = s.last();
        let m = merge_overlaps(s);
        // every earlier start is no later than the new interval's start
        assert forall|k: int| 0 <= k < mp.len() implies lex_le(#[trigger] mp[k].0, iv.0) by {
            let i = choose|i: int| 0 <= i < p.len() && mp[k].0 == p[i].0;
            assert(p[i] == s[i]);
            assert(s[s.len() - 1] == iv);
        }
        if mp.len() > 0 && lex_le(iv.0, mp.last().1) {
            let l = mp.last();
            let ne = if lex_lt(l.1, iv.1) { iv.1 } else { l.1 };
            assert(m == mp.update(mp.len() - 1, (l.0, ne)));
            assert forall|k: int| 0 <= k < m.len() implies m[k].0 == mp[k].0 by {}
            assert(sorted_by_start(m)) by {
                assert forall|i: int, j: int| 0 <= i < j < m.len() implies lex_le(m[i].0, m[j].0) by {
                    assert(m[i].0 == mp[i].0 && m[j].0 == mp[j].0);
                }
            }
            assert forall|k: int| 0 <= k < m.len() implies exists|i: int|
                0 <= i < s.len() && #[trigger] m[k].0 == s[i].0 by {
                assert(m[k].0 == mp[k].0);
                let i = choose|i: int| 0 <= i < p.len() && mp[k].0 == p[i].0;
                assert(p[i] == s[i]);
            }
            assert(lex_le(l.1, ne)) by {
                if lex_lt(l.1, iv.1) {
                    lemma_lt_le(l.1, iv.1);
                } else {
                    lemma_lex_irreflexive(l.1);
                }
            }
            assert forall|i: int| 0 <= i < s.len() implies exists|k: int|
                0 <= k < m.len() && within(#[trigger] s[i], m[k]) by {
                if i == s.len() - 1 {
                    let k = m.len() - 1;
                    assert(lex_le(mp[k].0, iv.0));
                    assert(lex_le(iv.1, ne)) by {
                        if lex_lt(l.1, iv.1) {
                            lemma_lex_irreflexive(iv.1);
                        }
                    }
                    assert(within(s[i], m[k]));
                } else {
                    assert(p[i] == s[i]);
                    let k = choose|k: int| 0 <= k < mp.len() && within(p[i], mp[k]);
                    if k == mp.len() - 1 {
                        lemma_le_trans(p[i].1, l.1, ne);
                    }
                    assert(within(s[i], m[k]));
                }
            }
        } else {
            assert(m == mp.push(iv));
            assert(sorted_by_start(m)) by {
                assert forall|i: int, j: int| #![trigger m[i], m[j]] 0 <= i < j < m.len() implies lex_le(m[i].0, m[j].0) by {
                    if j == m.len() - 1 {
                        assert(m[i] == mp[i]);
                    } else {
                        assert(m[i] == mp[i] && m[j] == mp[j]);
                    }
                }
            }
            assert forall|k: int| 0 <= k < m.len() implies exists|i: int|
                0 <= i < s.len() && #[trigger] m[k].0 == s[i].0 by {
                if k == m.len() - 1 {
                    assert(m[k].0 == s[s.len() - 1].0);
                } else {
                    assert(m[k] == mp[k]);
                    let i = choose|i: int| 0 <= i < p.len() && mp[k].0 == p[i].0;
                    assert(p[i] == s[i]);
                }
            }
            assert forall|i: int| 0 <= i < s.len() implies exists|k: int|
                0 <= k < m.len() && within(#[trigger] s[i], m[k]) by {
                if i == s.len() - 1 {
                    lemma_lex_irreflexive(iv.0);
                    lemma_lex_irreflexive(iv.1);
                    assert(within(s[i], m[m.len() - 1]));
                } else {
                    assert(p[i] == s[i]);
                    let k = choose|k: int| 0 <= k < mp.len() && within(p[i], mp[k]);
                    assert(m[k] == mp[k]);
                    assert(within(s[i], m[k]));
                }
            }
        }
    }
}

/// Whether two intervals overlap: each starts strictly before the other
/// ends.
pub open spec fn overlaps(a: (Seq<char>, Seq<char>), b: (Seq<char>, Seq<char>)) -> bool {
    lex_lt(a.0, b.1) && lex_lt(b.0, a.1)
}

proof fn lemma_gap_walk_avoids(m: Seq<(Seq<char>, Seq<char>)>, time_min: Seq<char>)
    requires
        sorted_by_start(m),
    ensures
        forall|j: int| 0 <= j < m.len() ==> lex_le(#[trigger] m[j].1, gap_walk(m, time_min).1),
        forall|k: int, j: int|
            0 <= k < gap_walk(m, time_min).0.len() && 0 <= j < m.len() ==> !overlaps(
                #[trigger] gap_walk(m, time_min).0[k],
                #[trigger] m[j],
            ),
        forall|k: int|
            0 <= k < gap_walk(m, time_min).0.len() ==> exists|j: int|
                0 <= j < m.len() && #[trigger] gap_walk(m, time_min).0[k].1 == m[j].0,
    decreases m.len(),
{
    if m.len() > 0 {
        let p = m.drop_last();
        assert(sorted_by_start(p)) by {
            assert forall|i: int, j: int| 0 <= i < j < p.len() implies lex_le(p[i].0, p[j].0) by {
                assert(p[i] == m[i] && p[j] == m[j]);
            }
        }
        lemma_gap_walk_avoids(p, time_min);
        let (slots, cur) = gap_walk(p, time_min);
        let (bs, be) = m.last();
        let (slots2, cur2) = gap_walk(m, time_min);
        let n = m.len() as int;
        assert(m[n - 1] == (bs, be));
        assert(lex_le(cur, cur2)) by {
            if lex_lt(cur, be) {
                lemma_lt_le(cur, be);
            } else {
                lemma_lex_irreflexive(cur);
            }
        }
        assert forall|j: int| 0 <= j < m.len() implies lex_le(#[trigger] m[j].1, cur2) by {
            if j < n - 1 {
                assert(p[j] == m[j]);
                assert(lex_le(p[j].1, cur));
                lemma_le_trans(m[j].1, cur, cur2);
            } else {
                if lex_lt(cur, be) {
                    lemma_lex_irreflexive(be);
                }
            }
        }
        assert forall|k: int| 0 <= k < slots2.len() implies exists|j: int|
            0 <= j < m.len() && #[trigger] slots2[k].1 == m[j].0 by {
            if k < slots.len() {
                assert(slots2[k] == slots[k]);
                let j = choose|j: int| 0 <= j < p.len() && slots[k].1 == p[j].0;
                assert(p[j] == m[j]);
            } else {
                assert(slots2[k].1 == m[n - 1].0);
            }
        }
        assert forall|k: int, j: int| 0 <= k < slots2.len() && 0 <= j < m.len() implies !overlaps(
            #[trigger] slots2[k],
            #[trigger] m[j],
        ) by {
            if k < slots.len() {
                assert(slots2[k] == slots[k]);
                if j < n - 1 {
                    assert(p[j] == m[j]);
                    assert(!overlaps(slots[k], p[j]));
                } else {
                    let idx = choose|i: int| 0 <= i < p.len() && slots[k].1 == p[i].0;
                    assert(p[idx] == m[idx]);
                    assert(lex_le(m[idx].0, m[n - 1].0));
                }
            } else {
                assert(slots2[k] == (cur, bs));
                if j < n - 1 {
                    assert(p[j] == m[j]);
                    assert(lex_le(p[j].1, cur));
                } else {
                    lemma_lex_irreflexive(bs);
                }
            }
        }
    }
}

/// No free window found by the free-slot search overlaps any of the busy
/// intervals it was given: every window is time when all the calendars
/// queried are free.
pub proof fn lemma_free_windows_avoid_busy(
    busy: Seq<(Seq<char>, Seq<char>)>,
    time_min: Seq<char>,
    time_max: Seq<char>,
)
    ensures
        forall|k: int, j: int|
            0 <= k < free_windows(busy, time_min, time_max).len() && 0 <= j < busy.len() ==> !overlaps(
                #[trigger] free_windows(busy, time_min, time_max)[k],
                #[trigger] busy[j],
            ),
{
    let sorted = sort_by_start(busy);
    lemma_sort_by_start(busy);
    lemma_merge_overlaps(sorted);
    let m = merge_overlaps(sorted);
    lemma_gap_walk_avoids(m, time_min);
    let (slots, cur) = gap_walk(m, time_min);
    let fw = free_windows(busy, time_min, time_max);
    assert forall|k: int, j: int| 0 <= k < fw.len() && 0 <= j < busy.len() implies !overlaps(
        #[trigger] fw[k],
        #[trigger] busy[j],
    ) by {
        let x = busy[j];
        assert(busy.contains(x));
        assert(sorted.contains(x));
        let i = choose|i: int| 0 <= i < sorted.len() && sorted[i] == x;
        let q = choose|q: int| 0 <= q < m.len() && within(sorted[i], m[q]);
        let w = fw[k];
        assert(!overlaps(w, m[q])) by {
            if k < slots.len() {
                assert(w == slots[k]);
            } else {
                assert(w == (cur, time_max));
                assert(lex_le(m[q].1, cur));
            }
        }
        if overlaps(w, x) {
            if !lex_lt(w.0, m[q].1) {
                lemma_le_trans(x.1, m[q].1, w.0);
            } else {
                lemma_le_trans(w.1, m[q].0, x.0);
            }
        }
    }
}

/// Whether an interval starts no later than it ends.
pub open spec fn well_formed_interval(iv: (Seq<char>, Seq<char>)) -> bool {
    lex_le(iv.0, iv.1)
}

proof fn lemma_le_refl(a: Seq<char>)
    ensures
        lex_le(a, a),
{
    lemma_lex_irreflexive(a);
}

/// Merging takes every start and every end from the input, and keeps
/// intervals well formed.
proof fn lemma_merge_sources(s: Seq<(Seq<char>, Seq<char>)>)
    ensures
        forall|k: int|
            0 <= k < merge_overlaps(s).len() ==> exists|i: int|
                0 <= i < s.len() && #[trigger] merge_overlaps(s)[k].0 == s[i].0,
        forall|k: int|
            0 <= k < merge_overlaps(s).len() ==> exists|i: int|
                0 <= i < s.len() && #[trigger] merge_overlaps(s)[k].1 == s[i].1,
        (forall|i: int| 0 <= i < s.len() ==> well_formed_interval(#[trigger] s[i])) ==> (forall|k: int|
            0 <= k < merge_overlaps(s).len() ==> well_formed_interval(#[trigger] merge_overlaps(s)[k])),
    decreases s.len(),
{
    if s.len() > 0 {
        let p = s.drop_last();
        lemma_merge_sources(p);
        let mp = merge_overlaps(p);
        let iv = s.last();
        let m = merge_overlaps(s);
        assert forall|k: int| 0 <= k < m.len() implies exists|i: int| 0 <= i < s.len() && #[trigger] m[k].0 == s[i].0 by {
            if k < mp.len() {
                assert(m[k].0 == mp[k].0);
                let i = choose|i: int| 0 <= i < p.len() && mp[k].0 == p[i].0;
                assert(s[i] == p[i]);
            } else {
                assert(m[k] == iv);
                assert(s[s.len() - 1] == iv);
            }
        }
        assert forall|k: int| 0 <= k < m.len() implies exists|i: int| 0 <= i < s.len() && #[trigger] m[k].1 == s[i].1 by {
            if k < mp.len() && m[k] == mp[k] {
                let i = choose|i: int| 0 <= i < p.len() && mp[k].1 == p[i].1;
                assert(s[i] == p[i]);
            } else {
                assert(m[k].1 == iv.1);
                assert(s[s.len() - 1] == iv);
            }
        }
        if forall|i: int| 0 <= i < s.len() ==> well_formed_interval(#[trigger] s[i]) {
            assert forall|i: int| 0 <= i < p.len() implies well_formed_interval(#[trigger] p[i]) by {
                assert(p[i] == s[i]);
            }
            assert(well_formed_interval(s[s.len() - 1]));
            assert forall|k: int| 0 <= k < m.len() implies well_formed_interval(#[trigger] m[k]) by {
                if k < mp.len() && m[k] == mp[k] {
                    assert(well_formed_interval(mp[k]));
                } else if k == mp.len() - 1 && mp.len() > 0 && m[k] == (mp.last().0, iv.1) {
                    assert(well_formed_interval(mp[mp.len() - 1]));
                    lemma_lt_le(mp.last().1, iv.1);
                    lemma_le_trans(mp.last().0, mp.last().1, iv.1);
                } else {
                    assert(m[k] == iv);
                }
            }
        }
    }
}

/// What walking well-formed merged intervals keeps: the cursor never moves
/// back and starts at `time_min`; each gap starts at `time_min` or at a busy
/// end, ends at a busy start, lies before the cursor, and the gaps come in
/// order, each ending no later than the next starts.
proof fn lemma_gap_walk_ordered(merged: Seq<(Seq<char>, Seq<char>)>, time_min: Seq<char>)
    requires
        forall|i: int| 0 <= i < merged.len() ==> well_formed_interval(#[trigger] merged[i]),
    ensures
        lex_le(time_min, gap_walk(merged, time_min).1),
        gap_walk(merged, time_min).1 == time_min || exists|i: int|
            0 <= i < merged.len() && gap_walk(merged, time_min).1 == #[trigger] merged[i].1,
        forall|k: int|
            0 <= k < gap_walk(merged, time_min).0.len() ==> lex_le(time_min, #[trigger] gap_walk(merged, time_min).0[k].0)
                && lex_le(gap_walk(merged, time_min).0[k].1, gap_walk(merged, time_min).1),
        forall|k: int, j: int|
            0 <= k < j < gap_walk(merged, time_min).0.len() ==> lex_le(
                #[trigger] gap_walk(merged, time_min).0[k].1,
                #[trigger] gap_walk(merged, time_min).0[j].0,
            ),
        forall|k: int|
            0 <= k < gap_walk(merged, time_min).0.len() ==> exists|i: int|
                0 <= i < merged.len() && #[trigger] gap_walk(merged, time_min).0[k].1 == merged[i].0,
        forall|k: int|
            0 <= k < gap_walk(merged, time_min).0.len() ==> (#[trigger] gap_walk(merged, time_min).0[k].0 == time_min
                || exists|i: int| 0 <= i < merged.len() && gap_walk(merged, time_min).0[k].0 == merged[i].1),
    decreases merged.len(),
{
    lemma_le_refl(time_min);
    if merged.len() > 0 {
        let p = merged.drop_last();
        assert forall|i: int| 0 <= i < p.len() implies well_formed_interval(#[trigger] p[i]) by {
            assert(p[i] == merged[i]);
        }
        lemma_gap_walk_ordered(p, time_min);
        let (slots, cur) = gap_walk(p, time_min);
        let (bs, be) = merged.last();
        assert(merged[merged.len() - 1] == (bs, be));
        assert(well_formed_interval(merged[merged.len() - 1]));
        let (slots2, cur2) = gap_walk(merged, time_min);
        // the cursor does not move back, and the busy start lies before it
        assert(lex_le(cur, cur2) && lex_le(be, cur2)) by {
            if lex_lt(cur, be) {
                lemma_lt_le(cur, be);
                lemma_le_refl(be);
            } else {
                lemma_le_refl(cur);
            }
        }
        lemma_le_trans(bs, be, cur2);
        lemma_le_trans(time_min, cur, cur2);
        if cur2 != time_min && cur2 != cur {
            assert(cur2 == merged[merged.len() - 1].1);
        } else if cur2 != time_min {
            let i = choose|i: int| 0 <= i < p.len() && cur == #[trigger] p[i].1;
            assert(merged[i] == p[i]);
        }
        assert forall|k: int| 0 <= k < slots2.len() implies lex_le(time_min, #[trigger] slots2[k].0)
            && lex_le(slots2[k].1, cur2) by {
            if k < slots.len() {
                assert(slots2[k] == slots[k]);
                assert(lex_le(time_min, slots[k].0));
                lemma_le_trans(slots[k].1, cur, cur2);
            } else {
                assert(slots2[k] == (cur, bs));
            }
        }
        assert forall|k: int, j: int| 0 <= k < j < slots2.len() implies lex_le(
            #[trigger] slots2[k].1,
            #[trigger] slots2[j].0,
        ) by {
            if j < slots.len() {
                assert(slots2[k] == slots[k] && slots2[j] == slots[j]);
            } else {
                assert(slots2[k] == slots[k]);
                assert(lex_le(time_min, slots[k].0));
                assert(slots2[j] == (cur, bs));
            }
        }
        assert forall|k: int| 0 <= k < slots2.len() implies exists|i: int|
            0 <= i < merged.len() && #[trigger] slots2[k].1 == merged[i].0 by {
            if k < slots.len() {
                assert(slots2[k] == slots[k]);
                let i = choose|i: int| 0 <= i < p.len() && slots[k].1 == p[i].0;
                assert(merged[i] == p[i]);
            } else {
                assert(slots2[k].1 == merged[merged.len() - 1].0);
            }
        }
        assert forall|k: int| 0 <= k < slots2.len() implies (#[trigger] slots2[k].0 == time_min || exists|i: int|
            0 <= i < merged.len() && slots2[k].0 == merged[i].1) by {
            if k < slots.len() {
                assert(slots2[k] == slots[k]);
                if slots[k].0 != time_min {
                    let i = choose|i: int| 0 <= i < p.len() && slots[k].0 == p[i].1;
                    assert(merged[i] == p[i]);
                }
            } else {
                assert(slots2[k].0 == cur);
                if cur != time_min {
                    let i = choose|i: int| 0 <= i < p.len() && cur == #[trigger] p[i].1;
                    assert(merged[i] == p[i]);
                }
            }
        }
    }
}

/// For well-formed busy intervals ending by `time_max`, the free windows
/// lie within `[time_min, time_max]`, come in order (each ends no later
/// than the next starts, so they are sorted and disjoint), and are maximal:
/// each starts at `time_min` or where a busy interval ends, and ends at
/// `time_max` or where a busy interval starts.
pub proof fn lemma_free_windows_ordered(
    busy: Seq<(Seq<char>, Seq<char>)>,
    time_min: Seq<char>,
    time_max: Seq<char>,
)
    requires
        forall|i: int| 0 <= i < busy.len() ==> well_formed_interval(#[trigger] busy[i]) && lex_le(busy[i].1, time_max),
    ensures
        forall|k: int|
            0 <= k < free_windows(busy, time_min, time_max).len() ==> lex_le(
                time_min,
                #[trigger] free_windows(busy, time_min, time_max)[k].0,
            ) && lex_le(free_windows(busy, time_min, time_max)[k].1, time_max),
        forall|k: int, j: int|
            0 <= k < j < free_windows(busy, time_min, time_max).len() ==> lex_le(
                #[trigger] free_windows(busy, time_min, time_max)[k].1,
                #[trigger] free_windows(busy, time_min, time_max)[j].0,
            ),
        forall|k: int|
            0 <= k < free_windows(busy, time_min, time_max).len() ==> (
            #[trigger] free_windows(busy, time_min, time_max)[k].0 == time_min || exists|i: int|
                0 <= i < busy.len() && free_windows(busy, time_min, time_max)[k].0 == busy[i].1),
        forall|k: int|
            0 <= k < free_windows(busy, time_min, time_max).len() ==> (
            #[trigger] free_windows(busy, time_min, time_max)[k].1 == time_max || exists|i: int|
                0 <= i < busy.len() && free_windows(busy, time_min, time_max)[k].1 == busy[i].0),
{
    let sorted = sort_by_start(busy);
    lemma_sort_by_start(busy);
    // every sorted interval is one of the busy ones
    assert forall|i: int| 0 <= i < sorted.len() implies well_formed_interval(#[trigger] sorted[i])
        && lex_le(sorted[i].1, time_max) && exists|b: int| 0 <= b < busy.len() && busy[b] == sorted[i] by {
        assert(sorted.contains(sorted[i]));
        assert(busy.contains(sorted[i]));
        let b = choose|b: int| 0 <= b < busy.len() && busy[b] == sorted[i];
        assert(well_formed_interval(busy[b]));
    }
    lemma_merge_sources(sorted);
    let m = merge_overlaps(sorted);
    assert forall|q: int| 0 <= q < m.len() implies well_formed_interval(#[trigger] m[q]) && lex_le(m[q].1, time_max)
        && (exists|b: int| 0 <= b < busy.len() && busy[b].0 == m[q].0)
        && (exists|b: int| 0 <= b < busy.len() && busy[b].1 == m[q].1) by {
        let i = choose|i: int| 0 <= i < sorted.len() && m[q].1 == sorted[i].1;
        let i2 = choose|i: int| 0 <= i < sorted.len() && m[q].0 == sorted[i].0;
        let b = choose|b: int| 0 <= b < busy.len() && busy[b] == sorted[i];
        let b2 = choose|b: int| 0 <= b < busy.len() && busy[b] == sorted[i2];
        assert(busy[b].1 == m[q].1);
        assert(busy[b2].0 == m[q].0);
    }
    lemma_gap_walk_ordered(m, time_min);
    let (slots, cur) = gap_walk(m, time_min);
    let fw = free_windows(busy, time_min, time_max);
    lemma_le_refl(time_max);
    assert forall|k: int| 0 <= k < fw.len() implies lex_le(time_min, #[trigger] fw[k].0) && lex_le(fw[k].1, time_max)
        && (fw[k].0 == time_min || exists|i: int| 0 <= i < busy.len() && fw[k].0 == busy[i].1)
        && (fw[k].1 == time_max || exists|i: int| 0 <= i < busy.len() && fw[k].1 == busy[i].0) by {
        if k < slots.len() {
            assert(fw[k] == slots[k]);
            assert(lex_le(time_min, slots[k].0));
            let q = choose|q: int| 0 <= q < m.len() && #[trigger] slots[k].1 == m[q].0;
            assert(well_formed_interval(m[q]) && lex_le(m[q].1, time_max));
            lemma_le_trans(m[q].0, m[q].1, time_max);
            let b = choose|b: int| 0 <= b < busy.len() && busy[b].0 == m[q].0;
            if slots[k].0 != time_min {
                let q2 = choose|q2: int| 0 <= q2 < m.len() && slots[k].0 == m[q2].1;
                assert(well_formed_interval(m[q2]));
                let b2 = choose|b: int| 0 <= b < busy.len() && busy[b].1 == m[q2].1;
            }
        } else {
            assert(fw[k] == (cur, time_max));
            if cur != time_min {
                let q2 = choose|q2: int| 0 <= q2 < m.len() && cur == #[trigger] m[q2].1;
                assert(well_formed_interval(m[q2]));
                let b2 = choose|b: int| 0 <= b < busy.len() && busy[b].1 == m[q2].1;
            }
        }
    }
    assert forall|k: int, j: int| 0 <= k < j < fw.len() implies lex_le(#[trigger] fw[k].1, #[trigger] fw[j].0) by {
        if j < slots.len() {
            assert(fw[k] == slots[k] && fw[j] == slots[j]);
        } else {
            assert(fw[k] == slots[k]);
            assert(lex_le(time_min, slots[k].0));
            assert(fw[j] == (cur, time_max));
        }
    }
}

/// The calendar a request targets: the given id, or the service default
/// when the id is empty.
pub fn resolve_calendar_id<'a>(default_id: &'a str, calendar_id: &'a str) -> (r: &'a str)
    ensures
        r@ == if calendar_id@.len() == 0 { default_id@ } else { calendar_id@ },
{
    if calendar_id.unicode_len() == 0 {
        default_id
    } else {
        calendar_id
    }
}

/// The attendees of an event after the current user responds: the
/// attendee marked as self gets `status`, everyone else is unchanged.
/// Fails with `Error::Other` when the event has no attendees.
pub fn respond_attendees(attendees: &Vec<EventAttendee>, status: &str) -> (r: Result<Vec<EventAttendee>>)
    ensures
        attendees@.len() == 0 <==> r is Err,
        r matches Err(e) ==> (e matches Error::Other(m) && m@
            == "no attendees on event to update response status"@),
        r matches Ok(v) ==> v@.len() == attendees@.len() && forall|i: int|
            0 <= i < v@.len() ==> {
                let a = attendees@[i];
                let b = #[trigger] v@[i];
                &&& b.id == a.id
                &&& b.email == a.email
                &&& b.display_name == a.display_name
                &&& b.organizer == a.organizer
                &&& b.is_self == a.is_self
                &&& b.resource == a.resource
                &&& b.optional == a.optional
                &&& b.comment == a.comment
                &&& b.additional_guests == a.additional_guests
                &&& a.is_self ==> (b.response_status matches Some(s) && s@ == status@)
                &&& !a.is_self ==> b.response_status == a.response_status
            },
{
    if attendees.len() == 0 {
        return Err(Error::Other(String::from_str("no attendees on event to update response status")));
    }
    let mut out: Vec<EventAttendee> = Vec::new();
    let mut i: usize = 0;
    while i < attendees.len()
        invariant
            i <= attendees@.len(),
            out@.len() == i,
            forall|k: int|
                0 <= k < i ==> {
                    let a = attendees@[k];
                    let b = #[trigger] out@[k];
                    &&& b.id == a.id
                    &&& b.email == a.email
                    &&& b.display_name == a.display_name
                    &&& b.organizer == a.organizer
                    &&& b.is_self == a.is_self
                    &&& b.resource == a.resource
                    &&& b.optional == a.optional
                    &&& b.comment == a.comment
                    &&& b.additional_guests == a.additional_guests
                    &&& a.is_self ==> (b.response_status matches Some(s) && s@ == status@)
                    &&& !a.is_self ==> b.response_status == a.response_status
                },
        decreases attendees.len() - i,
    {
        let a = &attendees[i];
        let response_status = if a.is_self {
            Some(status.to_owned())
        } else {
            clone_opt_string(&a.response_status)
        };
        out.push(EventAttendee {
            id: clone_opt_string(&a.id),
            email: clone_opt_string(&a.email),
            display_name: clone_opt_string(&a.display_name),
            organizer: a.organizer,
            is_self: a.is_self,
            resource: a.resource,
            optional: a.optional,
            response_status,
            comment: clone_opt_string(&a.comment),
            additional_guests: a.additional_guests,
        });
        i = i + 1;
    }
    Ok(out)
}

/// Base URL of the Calendar API.
pub const CALENDAR_BASE: &'static str = "https://www.googleapis.com/calendar/v3";

/// The events collection of a calendar.
pub open spec fn events_path(calendar_id: Seq<char>) -> Seq<char> {
    CALENDAR_BASE@ + "/calendars/"@ + enc(calendar_id) + "/events"@
}

/// The events collection of a calendar (where new events are created).
pub fn events_collection_url(calendar_id: &str) -> (r: String)
    ensures
        r@ == events_path(calendar_id@),
{
    let mut url = String::from_str(CALENDAR_BASE);
    url.append("/calendars/");
    let id = urlencoding(calendar_id);
    url.append(id.as_str());
    url.append("/events");
    url
}

/// Expansion of recurring events into single events, ordered by start.
pub open spec fn single_events_by_start() -> Seq<(Seq<char>, Seq<char>)> {
    seq![("singleEvents"@, "true"@), ("orderBy"@, "startTime"@)]
}

fn add_single_events(params: &mut Vec<(String, String)>)
    ensures
        pair_views(final(params)@) == pair_views(old(params)@) + single_events_by_start(),
{
    add_param(params, "singleEvents", String::from_str("true"));
    add_param(params, "orderBy", String::from_str("startTime"));
    assert(pair_views(params@) =~= pair_views(old(params)@) + single_events_by_start());
}

/// Query parameters of an event listing.
pub open spec fn events_params(
    time_min: Option<&str>,
    time_max: Option<&str>,
    max_results: Option<u32>,
    page_token: Option<&str>,
) -> Seq<(Seq<char>, Seq<char>)> {
    opt_param("timeMin"@, enc_opt(time_min)) + opt_param("timeMax"@, enc_opt(time_max)) + opt_param(
        "maxResults"@,
        num_opt(max_results),
    ) + opt_param("pageToken"@, enc_opt(page_token)) + single_events_by_start()
}

/// The URL listing the events of a (resolved) calendar: the given bounds,
/// page size and page token, then single events ordered by start time.
pub fn events_url(
    calendar_id: &str,
    time_min: Option<&str>,
    time_max: Option<&str>,
    max_results: Option<u32>,
    page_token: Option<&str>,
) -> (r: String)
    ensures
        r@ == events_path(calendar_id@) + query_of(events_params(time_min, time_max, max_results, page_token)),
{
    let mut params: Vec<(String, String)> = Vec::new();
    assert(pair_views(params@) =~= Seq::<(Seq<char>, Seq<char>)>::empty());
    add_encoded(&mut params, "timeMin", time_min);
    add_encoded(&mut params, "timeMax", time_max);
    add_number(&mut params, "maxResults", max_results);
    add_encoded(&mut params, "pageToken", page_token);
    add_single_events(&mut params);
    assert(pair_views(params@) =~= events_params(time_min, time_max, max_results, page_token));
    let base = events_collection_url(calendar_id);
    url_with_query(base.as_str(), &params)
}

/// Query parameters of an event search.
pub open spec fn search_params(
    query: Seq<char>,
    time_min: Option<&str>,
    time_max: Option<&str>,
    max_results: Option<u32>,
) -> Seq<(Seq<char>, Seq<char>)> {
    seq![("q"@, enc(query))] + opt_param("timeMin"@, enc_opt(time_min)) + opt_param(
        "timeMax"@,
        enc_opt(time_max),
    ) + opt_param("maxResults"@, num_opt(max_results)) + single_events_by_start()
}

/// The URL searching the events of a (resolved) calendar for free text.
pub fn search_url(
    calendar_id: &str,
    query: &str,
    time_min: Option<&str>,
    time_max: Option<&str>,
    max_results: Option<u32>,
) -> (r: String)
    ensures
        r@ == events_path(calendar_id@) + query_of(search_params(query@, time_min, time_max, max_results)),
{
    let mut params: Vec<(String, String)> = Vec::new();
    add_param(&mut params, "q", urlencoding(query));
    assert(pair_views(params@) =~= seq![("q"@, enc(query@))]);
    add_encoded(&mut params, "timeMin", time_min);
    add_encoded(&mut params, "timeMax", time_max);
    add_number(&mut params, "maxResults", max_results);
    add_single_events(&mut params);
    assert(pair_views(params@) =~= search_params(query@, time_min, time_max, max_results));
    let base = events_collection_url(calendar_id);
    url_with_query(base.as_str(), &params)
}

/// The URL of one event of a (resolved) calendar.
pub fn event_url(calendar_id: &str, event_id: &str) -> (r: String)
    ensures
        r@ == events_path(calendar_id@) + "/"@ + enc(event_id@),
{
    let mut url = events_collection_url(calendar_id);
    url.append("/");
    let e = urlencoding(event_id);
    url.append(e.as_str());
    url
}

/// The URL that quick-adds an event from natural-language text.
pub fn quick_add_url(calendar_id: &str, text: &str) -> (r: String)
    ensures
        r@ == events_path(calendar_id@) + "/quickAdd"@ + query_of(seq![("text"@, enc(text@))]),
{
    let mut base = events_collection_url(calendar_id);
    base.append("/quickAdd");
    let mut params: Vec<(String, String)> = Vec::new();
    add_param(&mut params, "text", urlencoding(text));
    assert(pair_views(params@) =~= seq![("text"@, enc(text@))]);
    url_with_query(base.as_str(), &params)
}

/// The URL listing the user's calendars.
pub fn calendar_list_url(page_token: Option<&str>) -> (r: String)
    ensures
        r@ == CALENDAR_BASE@ + "/users/me/calendarList"@ + query_of(paging_params(None, page_token)),
{
    let mut base = String::from_str(CALENDAR_BASE);
    base.append("/users/me/calendarList");
    paged_url(base.as_str(), None, page_token)
}

/// The URL listing the access rules of a (resolved) calendar.
pub fn acl_url(calendar_id: &str, page_token: Option<&str>) -> (r: String)
    ensures
        r@ == CALENDAR_BASE@ + "/calendars/"@ + enc(calendar_id@) + "/acl"@ + query_of(
            paging_params(None, page_token),
        ),
{
    let mut base = String::from_str(CALENDAR_BASE);
    base.append("/calendars/");
    let id = urlencoding(calendar_id);
    base.append(id.as_str());
    base.append("/acl");
    paged_url(base.as_str(), None, page_token)
}

/// The URL of a free/busy query.
pub fn freebusy_url() -> (r: String)
    ensures
        r@ == CALENDAR_BASE@ + "/freeBusy"@,
{
    let mut url = String::from_str(CALENDAR_BASE);
    url.append("/freeBusy");
    url
}

} // verus!
