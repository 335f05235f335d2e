//! Aggregation of recorded trips into the travel time and summed departures tables:
//! one row per departure time, in increasing order, with per-path counts and sums.

use vstd::prelude::*;

verus! {

/// A completed trip: path index, departure time, travel time.
pub type TripRecord = (usize, u64, u64);

/// Number of trips on path `p` that departed at `d`.
pub open spec fn count_where(recs: Seq<TripRecord>, p: usize, d: u64) -> nat
    decreases recs.len(),
{
    if recs.len() == 0 {
        0
    } else {
        count_where(recs.drop_last(), p, d) + (if recs.last().0 == p && recs.last().1 == d {
            1nat
        } else {
            0nat
        })
    }
}

/// Summed travel time of the trips on path `p` that departed at `d`.
pub open spec fn sum_where(recs: Seq<TripRecord>, p: usize, d: u64) -> nat
    decreases recs.len(),
{
    if recs.len() == 0 {
        0
    } else {
        sum_where(recs.drop_last(), p, d) + (if recs.last().0 == p && recs.last().1 == d {
            recs.last().2 as nat
        } else {
            0nat
        })
    }
}

/// Number of trips, on any path, that departed at `d`.
pub open spec fn count_at(recs: Seq<TripRecord>, d: u64) -> nat
    decreases recs.len(),
{
    if recs.len() == 0 {
        0
    } else {
        count_at(recs.drop_last(), d) + (if recs.last().1 == d {
            1nat
        } else {
            0nat
        })
    }
}

/// Summed travel time of the trips, on any path, that departed at `d`.
pub open spec fn sum_at(recs: Seq<TripRecord>, d: u64) -> nat
    decreases recs.len(),
{
    if recs.len() == 0 {
        0
    } else {
        sum_at(recs.drop_last(), d) + (if recs.last().1 == d {
            recs.last().2 as nat
        } else {
            0nat
        })
    }
}

/// Number of trips on path `p` that departed at `d` or earlier.
pub open spec fn count_until(recs: Seq<TripRecord>, p: usize, d: u64) -> nat
    decreases recs.len(),
{
    if recs.len() == 0 {
        0
    } else {
        count_until(recs.drop_last(), p, d) + (if recs.last().0 == p && recs.last().1 <= d {
            1nat
        } else {
            0nat
        })
    }
}

/// Some trip departed at `d`.
pub open spec fn departs_at(recs: Seq<TripRecord>, d: u64) -> bool {
    exists|i: int| 0 <= i < recs.len() && recs[i].1 == d
}

/// The values are in strictly increasing order.
pub open spec fn strictly_increasing(s: Seq<u64>) -> bool {
    forall|i: int, j: int| 0 <= i < j < s.len() ==> s[i] < s[j]
}

/// The path indices are in strictly increasing order.
pub open spec fn strictly_increasing_paths(s: Seq<usize>) -> bool {
    forall|i: int, j: int| 0 <= i < j < s.len() ==> s[i] < s[j]
}

/// Travel times of a group of trips: how many, and their summed travel time.
#[derive(Clone, Copy, Debug, PartialEq, Eq)]
pub struct TravelTimeSum {
    pub count: usize,
    pub total: u128,
}

/// The trips that departed at one time: per path in the order of the path indices,
/// and over all paths.
#[derive(Clone, Debug, PartialEq, Eq)]
pub struct TravelTimeRow {
    pub departure_time: u64,
    pub per_path: Vec<TravelTimeSum>,
    pub all_paths: TravelTimeSum,
}

/// The number of trips per path that departed at the row's time or earlier.
#[derive(Clone, Debug, PartialEq, Eq)]
pub struct SummedDeparturesRow {
    pub departure_time: u64,
    pub per_path: Vec<usize>,
}

/// Both tables: travel times and summed departures, one row per departure time.
#[derive(Clone, Debug, PartialEq, Eq)]
pub struct TripTables {
    pub path_indices: Vec<usize>,
    pub travel_times: Vec<TravelTimeRow>,
    pub summed_departures: Vec<SummedDeparturesRow>,
}

/// The departure times of the rows.
pub open spec fn row_times(rows: Seq<TravelTimeRow>) -> Seq<u64> {
    rows.map_values(|r: TravelTimeRow| r.departure_time)
}

/// A travel time row is exact for the trips `recs` and the path indices `paths`.
pub open spec fn travel_time_row_exact(row: TravelTimeRow, recs: Seq<TripRecord>, paths: Seq<usize>) -> bool {
    &&& row.per_path@.len() == paths.len()
    &&& forall|j: int|
        0 <= j < paths.len() ==> {
            &&& (#[trigger] row.per_path@[j]).count == count_where(recs, paths[j], row.departure_time)
            &&& row.per_path@[j].total == sum_where(recs, paths[j], row.departure_time)
        }
    &&& row.all_paths.count == count_at(recs, row.departure_time)
    &&& row.all_paths.total == sum_at(recs, row.departure_time)
}

/// A summed departures row is exact for the trips `recs` and the path indices `paths`.
pub open spec fn summed_departures_row_exact(
    row: SummedDeparturesRow,
    recs: Seq<TripRecord>,
    paths: Seq<usize>,
) -> bool {
    &&& row.per_path@.len() == paths.len()
    &&& forall|j: int|
        0 <= j < paths.len() ==> #[trigger] row.per_path@[j] == count_until(
            recs,
            paths[j],
            row.departure_time,
        )
}

/// The tables are exactly those of the trips `recs` over the path indices `paths`:
/// one row per distinct departure time, in increasing order.
pub open spec fn tables_exact(t: TripTables, recs: Seq<TripRecord>, paths: Seq<usize>) -> bool {
    let rows = t.travel_times@;
    &&& t.path_indices@ == paths
    &&& strictly_increasing(row_times(rows))
    &&& forall|d: u64| departs_at(recs, d) <==> #[trigger] row_times(rows).contains(d)
    &&& forall|i: int| 0 <= i < rows.len() ==> travel_time_row_exact(#[trigger] rows[i], recs, paths)
    &&& t.summed_departures@.len() == rows.len()
    &&& forall|i: int|
        0 <= i < rows.len() ==> (#[trigger] t.summed_departures@[i]).departure_time
            == rows[i].departure_time && summed_departures_row_exact(
            t.summed_departures@[i],
            recs,
            paths,
        )
}

/// The sum of `f` over the trips.
spec fn sum_of(recs: Seq<TripRecord>, f: spec_fn(TripRecord) -> nat) -> nat
    decreases recs.len(),
{
    if recs.len() == 0 {
        0
    } else {
        sum_of(recs.drop_last(), f) + f(recs.last())
    }
}

/// One for a trip on path `p` that departed at `d`.
spec fn one_where(p: usize, d: u64) -> spec_fn(TripRecord) -> nat {
    |r: TripRecord| if r.0 == p && r.1 == d { 1nat } else { 0nat }
}

/// The travel time of a trip on path `p` that departed at `d`.
spec fn time_where(p: usize, d: u64) -> spec_fn(TripRecord) -> nat {
    |r: TripRecord| if r.0 == p && r.1 == d { r.2 as nat } else { 0nat }
}

/// One for a trip that departed at `d`.
spec fn one_at(d: u64) -> spec_fn(TripRecord) -> nat {
    |r: TripRecord| if r.1 == d { 1nat } else { 0nat }
}

/// The travel time of a trip that departed at `d`.
spec fn time_at(d: u64) -> spec_fn(TripRecord) -> nat {
    |r: TripRecord| if r.1 == d { r.2 as nat } else { 0nat }
}

/// One for a trip on path `p` that departed at `d` or earlier.
spec fn one_until(p: usize, d: u64) -> spec_fn(TripRecord) -> nat {
    |r: TripRecord| if r.0 == p && r.1 <= d { 1nat } else { 0nat }
}

proof fn lemma_counts_as_sums(recs: Seq<TripRecord>, p: usize, d: u64)
    ensures
        count_where(recs, p, d) == sum_of(recs, one_where(p, d)),
        sum_where(recs, p, d) == sum_of(recs, time_where(p, d)),
        count_at(recs, d) == sum_of(recs, one_at(d)),
        sum_at(recs, d) == sum_of(recs, time_at(d)),
        count_until(recs, p, d) == sum_of(recs, one_until(p, d)),
    decreases recs.len(),
{
    if recs.len() > 0 {
        lemma_counts_as_sums(recs.drop_last(), p, d);
    }
}

proof fn lemma_sum_of_remove(s: Seq<TripRecord>, f: spec_fn(TripRecord) -> nat, i: int)
    requires
        0 <= i < s.len(),
    ensures
        sum_of(s, f) == sum_of(s.remove(i), f) + f(s[i]),
    decreases s.len(),
{
    if i == s.len() - 1 {
        assert(s.remove(i) =~= s.drop_last());
    } else {
        lemma_sum_of_remove(s.drop_last(), f, i);
        assert(s.remove(i).drop_last() =~= s.drop_last().remove(i));
        assert(s.remove(i).last() == s.last());
    }
}

proof fn lemma_sum_of_permutation(s: Seq<TripRecord>, t: Seq<TripRecord>, f: spec_fn(TripRecord) -> nat)
    requires
        s.to_multiset() == t.to_multiset(),
    ensures
        sum_of(s, f) == sum_of(t, f),
    decreases s.len(),
{
    broadcast use vstd::seq_lib::group_to_multiset_ensures;
    broadcast use vstd::multiset::group_multiset_axioms;

    s.to_multiset_ensures();
    t.to_multiset_ensures();
    if s.len() == 0 {
        assert(t.to_multiset().len() == t.len());
        assert(t.len() == 0);
    } else {
        let x = s.last();
        let s1 = s.drop_last();
        assert(s1.push(x) =~= s);
        assert(s.contains(x)) by {
            assert(s[s.len() - 1] == x);
        }
        assert(s.to_multiset().count(x) > 0);
        assert(t.to_multiset().count(x) > 0);
        assert(t.contains(x));
        let i = choose|i: int| 0 <= i < t.len() && t[i] == x;
        let t1 = t.remove(i);
        assert(s1.to_multiset() =~= s.to_multiset().remove(x));
        assert(t1.to_multiset() =~= t.to_multiset().remove(x));
        lemma_sum_of_permutation(s1, t1, f);
        lemma_sum_of_remove(t, f, i);
    }
}

/// The tables do not depend on the order in which the trips are listed: for two
/// listings of the same trips, tables are exact for one exactly when they are exact for
/// the other.
pub proof fn law_tables_independent_of_trip_order(
    t: TripTables,
    recs: Seq<TripRecord>,
    reordered: Seq<TripRecord>,
    paths: Seq<usize>,
)
    requires
        recs.to_multiset() == reordered.to_multiset(),
    ensures
        tables_exact(t, recs, paths) == tables_exact(t, reordered, paths),
{
    broadcast use vstd::seq_lib::group_to_multiset_ensures;

    assert forall|p: usize, d: u64|
        #![trigger count_where(recs, p, d)]
        #![trigger sum_where(recs, p, d)]
        #![trigger count_until(recs, p, d)]
        count_where(recs, p, d) == count_where(reordered, p, d) && sum_where(recs, p, d) == sum_where(
            reordered,
            p,
            d,
        ) && count_until(recs, p, d) == count_until(reordered, p, d) by {
        lemma_counts_as_sums(recs, p, d);
        lemma_counts_as_sums(reordered, p, d);
        lemma_sum_of_permutation(recs, reordered, one_where(p, d));
        lemma_sum_of_permutation(recs, reordered, time_where(p, d));
        lemma_sum_of_permutation(recs, reordered, one_until(p, d));
    }
    assert forall|d: u64|
        #![trigger count_at(recs, d)]
        #![trigger sum_at(recs, d)]
        count_at(recs, d) == count_at(reordered, d) && sum_at(recs, d) == sum_at(reordered, d) by {
        lemma_counts_as_sums(recs, 0, d);
        lemma_counts_as_sums(reordered, 0, d);
        lemma_sum_of_permutation(recs, reordered, one_at(d));
        lemma_sum_of_permutation(recs, reordered, time_at(d));
    }
    assert forall|d: u64| departs_at(recs, d) == departs_at(reordered, d) by {
        if departs_at(recs, d) {
            let i = choose|i: int| 0 <= i < recs.len() && recs[i].1 == d;
            recs.to_multiset_ensures();
            reordered.to_multiset_ensures();
            assert(recs.contains(recs[i]));
            assert(recs.to_multiset().count(recs[i]) > 0);
            assert(reordered.to_multiset().count(recs[i]) > 0);
            assert(reordered.contains(recs[i]));
        }
        if departs_at(reordered, d) {
            let i = choose|i: int| 0 <= i < reordered.len() && reordered[i].1 == d;
            recs.to_multiset_ensures();
            reordered.to_multiset_ensures();
            assert(reordered.contains(reordered[i]));
            assert(reordered.to_multiset().count(reordered[i]) > 0);
            assert(recs.to_multiset().count(reordered[i]) > 0);
            assert(recs.contains(reordered[i]));
        }
    }
    let rows = t.travel_times@;
    assert forall|i: int| 0 <= i < rows.len() implies travel_time_row_exact(#[trigger] rows[i], recs, paths)
        == travel_time_row_exact(rows[i], reordered, paths) by {
        let d = rows[i].departure_time;
        assert forall|j: int| 0 <= j < paths.len() implies count_where(recs, paths[j], d) == count_where(reordered, paths[j], d)
            && sum_where(recs, paths[j], d) == sum_where(reordered, paths[j], d) by {
        }
        assert(count_at(recs, d) == count_at(reordered, d));
        assert(sum_at(recs, d) == sum_at(reordered, d));
        if travel_time_row_exact(rows[i], recs, paths) {
            assert forall|j: int| 0 <= j < paths.len() implies {
                &&& (#[trigger] rows[i].per_path@[j]).count == count_where(reordered, paths[j], d)
                &&& rows[i].per_path@[j].total == sum_where(reordered, paths[j], d)
            } by {
                assert(count_where(recs, paths[j], d) == count_where(reordered, paths[j], d));
                assert(sum_where(recs, paths[j], d) == sum_where(reordered, paths[j], d));
            }
        }
        if travel_time_row_exact(rows[i], reordered, paths) {
            assert forall|j: int| 0 <= j < paths.len() implies {
                &&& (#[trigger] rows[i].per_path@[j]).count == count_where(recs, paths[j], d)
                &&& rows[i].per_path@[j].total == sum_where(recs, paths[j], d)
            } by {
                assert(count_where(recs, paths[j], d) == count_where(reordered, paths[j], d));
                assert(sum_where(recs, paths[j], d) == sum_where(reordered, paths[j], d));
            }
        }
    }
    assert forall|i: int| 0 <= i < t.summed_departures@.len() implies summed_departures_row_exact(
        #[trigger] t.summed_departures@[i],
        recs,
        paths,
    ) == summed_departures_row_exact(t.summed_departures@[i], reordered, paths) by {
        let d = t.summed_departures@[i].departure_time;
        assert forall|j: int| 0 <= j < paths.len() implies count_until(recs, paths[j], d) == count_until(reordered, paths[j], d) by {
        }
    }
}

proof fn lemma_counts_bounded(recs: Seq<TripRecord>, p: usize, d: u64)
    ensures
        count_where(recs, p, d) <= recs.len(),
        count_at(recs, d) <= recs.len(),
        sum_where(recs, p, d) <= count_where(recs, p, d) * 0xffff_ffff_ffff_ffffnat,
        sum_at(recs, d) <= count_at(recs, d) * 0xffff_ffff_ffff_ffffnat,
    decreases recs.len(),
{
    if recs.len() > 0 {
        lemma_counts_bounded(recs.drop_last(), p, d);
        let cw = count_where(recs.drop_last(), p, d);
        let ca = count_at(recs.drop_last(), d);
        assert((cw + 1) * 0xffff_ffff_ffff_ffffnat == cw * 0xffff_ffff_ffff_ffffnat
            + 0xffff_ffff_ffff_ffffnat) by (nonlinear_arith);
        assert((ca + 1) * 0xffff_ffff_ffff_ffffnat == ca * 0xffff_ffff_ffff_ffffnat
            + 0xffff_ffff_ffff_ffffnat) by (nonlinear_arith);
    }
}

proof fn lemma_no_departure_no_trips(recs: Seq<TripRecord>, p: usize, d: u64)
    requires
        !departs_at(recs, d),
    ensures
        count_where(recs, p, d) == 0,
        sum_where(recs, p, d) == 0,
        count_at(recs, d) == 0,
        sum_at(recs, d) == 0,
    decreases recs.len(),
{
    if recs.len() > 0 {
        let t = recs.drop_last();
        assert(!departs_at(t, d)) by {
            if departs_at(t, d) {
                let i = choose|i: int| 0 <= i < t.len() && t[i].1 == d;
                assert(recs[i].1 == d);
            }
        }
        lemma_no_departure_no_trips(t, p, d);
        assert(recs[recs.len() - 1].1 != d);
    }
}

proof fn lemma_total_fits(c: nat, s: nat)
    requires
        c <= 0xffff_ffff_ffff_ffffnat,
        s <= c * 0xffff_ffff_ffff_ffffnat,
    ensures
        s <= 0xffff_ffff_ffff_ffff_ffff_ffff_ffff_ffffnat,
{
    assert(c * 0xffff_ffff_ffff_ffffnat <= 0xffff_ffff_ffff_ffffnat * 0xffff_ffff_ffff_ffffnat)
        by (nonlinear_arith)
        requires
            c <= 0xffff_ffff_ffff_ffffnat,
    ;
}

/// The trips that departed at one time, counted per path position and in total.
struct Group {
    dep: u64,
    per_path_count: Vec<usize>,
    per_path_total: Vec<u128>,
    count: usize,
    total: u128,
}

/// The group is exact for the trips `recs`.
spec fn group_exact(g: Group, recs: Seq<TripRecord>, paths: Seq<usize>) -> bool {
    &&& g.per_path_count@.len() == paths.len()
    &&& g.per_path_total@.len() == paths.len()
    &&& forall|j: int|
        0 <= j < paths.len() ==> #[trigger] g.per_path_count@[j] == count_where(recs, paths[j], g.dep)
            && g.per_path_total@[j] == sum_where(recs, paths[j], g.dep)
    &&& g.count == count_at(recs, g.dep)
    &&& g.total == sum_at(recs, g.dep)
}

spec fn group_times(groups: Seq<Group>) -> Seq<u64> {
    groups.map_values(|g: Group| g.dep)
}

/// Position of the group for departure time `d`, or where it would be inserted.
fn find_group(groups: &Vec<Group>, d: u64) -> (r: (bool, usize))
    requires
        strictly_increasing(group_times(groups@)),
    ensures
        r.1 <= groups@.len(),
        r.0 ==> r.1 < groups@.len() && groups@[r.1 as int].dep == d,
        !r.0 ==> (forall|i: int| 0 <= i < r.1 ==> groups@[i].dep < d) && (forall|i: int|
            r.1 <= i < groups@.len() ==> groups@[i].dep > d),
{
    let mut lo: usize = 0;
    let mut hi: usize = groups.len();
    while lo < hi
        invariant
            strictly_increasing(group_times(groups@)),
            lo <= hi <= groups@.len(),
            forall|i: int| 0 <= i < lo ==> groups@[i].dep < d,
            forall|i: int| hi <= i < groups@.len() ==> groups@[i].dep > d,
        decreases hi - lo,
    {
        let mid = lo + (hi - lo) / 2;
        let md = groups[mid].dep;
        if md == d {
            return (true, mid);
        } else if md < d {
            assert forall|i: int| 0 <= i <= mid implies groups@[i].dep < d by {
                if i < mid {
                    assert(group_times(groups@)[i] < group_times(groups@)[mid as int]);
                }
            }
            lo = mid + 1;
        } else {
            assert forall|i: int| mid <= i < groups@.len() implies groups@[i].dep > d by {
                if i > mid {
                    assert(group_times(groups@)[mid as int] < group_times(groups@)[i]);
                }
            }
            hi = mid;
        }
    }
    (false, lo)
}


proof fn lemma_push_counts(recs: Seq<TripRecord>, r: TripRecord, p: usize, d: u64)
    ensures
        count_where(recs.push(r), p, d) == count_where(recs, p, d) + (if r.0 == p && r.1 == d {
            1nat
        } else {
            0nat
        }),
        sum_where(recs.push(r), p, d) == sum_where(recs, p, d) + (if r.0 == p && r.1 == d {
            r.2 as nat
        } else {
            0nat
        }),
        count_at(recs.push(r), d) == count_at(recs, d) + (if r.1 == d {
            1nat
        } else {
            0nat
        }),
        sum_at(recs.push(r), d) == sum_at(recs, d) + (if r.1 == d {
            r.2 as nat
        } else {
            0nat
        }),
{
    assert(recs.push(r).drop_last() =~= recs);
}

/// Position of `p` among the path indices, if it is one of them.
fn position_of(paths: &Vec<usize>, p: usize) -> (r: Option<usize>)
    ensures
        match r {
            Some(j) => j < paths@.len() && paths@[j as int] == p,
            None => forall|j: int| 0 <= j < paths@.len() ==> paths@[j] != p,
        },
{
    let mut j: usize = 0;
    while j < paths.len()
        invariant
            j <= paths@.len(),
            forall|k: int| 0 <= k < j ==> paths@[k] != p,
        decreases paths@.len() - j,
    {
        if paths[j] == p {
            return Some(j);
        }
        j = j + 1;
    }
    None
}

/// A group for departure time `d` with no trips yet.
fn empty_group(d: u64, npaths: usize) -> (g: Group)
    ensures
        g.dep == d,
        g.per_path_count@.len() == npaths,
        g.per_path_total@.len() == npaths,
        forall|j: int| 0 <= j < npaths ==> g.per_path_count@[j] == 0 && g.per_path_total@[j] == 0,
        g.count == 0,
        g.total == 0,
{
    let mut c: Vec<usize> = Vec::new();
    let mut t: Vec<u128> = Vec::new();
    let mut j: usize = 0;
    while j < npaths
        invariant
            j <= npaths,
            c@.len() == j,
            t@.len() == j,
            forall|k: int| 0 <= k < j ==> c@[k] == 0 && t@[k] == 0,
        decreases npaths - j,
    {
        c.push(0);
        t.push(0);
        j = j + 1;
    }
    Group { dep: d, per_path_count: c, per_path_total: t, count: 0, total: 0 }
}

/// The group `g` with the trip `r`, which departed at the group's time, added.
fn add_trip(g: &Group, r: TripRecord, pos: Option<usize>, Ghost(before): Ghost<Seq<TripRecord>>, paths: &Vec<usize>) -> (out: Group)
    requires
        group_exact(*g, before, paths@),
        g.dep == r.1,
        before.len() < usize::MAX,
        strictly_increasing_paths(paths@),
        match pos {
            Some(j) => j < paths@.len() && paths@[j as int] == r.0,
            None => forall|j: int| 0 <= j < paths@.len() ==> paths@[j] != r.0,
        },
    ensures
        out.dep == g.dep,
        group_exact(out, before.push(r), paths@),
{
    let ghost after = before.push(r);
    proof {
        lemma_push_counts(before, r, r.0, r.1);
        lemma_counts_bounded(after, r.0, r.1);
        lemma_total_fits(count_at(after, r.1), sum_at(after, r.1));
    }
    let mut c: Vec<usize> = Vec::new();
    let mut t: Vec<u128> = Vec::new();
    let mut j: usize = 0;
    while j < g.per_path_count.len()
        invariant
            group_exact(*g, before, paths@),
            g.dep == r.1,
            before.len() < usize::MAX,
            after == before.push(r),
            strictly_increasing_paths(paths@),
            match pos {
                Some(j) => j < paths@.len() && paths@[j as int] == r.0,
                None => forall|j: int| 0 <= j < paths@.len() ==> paths@[j] != r.0,
            },
            j <= paths@.len(),
            c@.len() == j,
            t@.len() == j,
            forall|k: int|
                0 <= k < j ==> c@[k] == count_where(after, paths@[k], g.dep) && t@[k] == sum_where(
                    after,
                    paths@[k],
                    g.dep,
                ),
        decreases paths@.len() - j,
    {
        proof {
            lemma_push_counts(before, r, paths@[j as int], r.1);
            lemma_counts_bounded(after, paths@[j as int], r.1);
            lemma_total_fits(count_where(after, paths@[j as int], r.1), sum_where(after, paths@[j as int], r.1));
        }
        let hit = match pos {
            Some(k) => k == j,
            None => false,
        };
        if hit {
            c.push(g.per_path_count[j] + 1);
            t.push(g.per_path_total[j] + r.2 as u128);
        } else {
            proof {
                if let Some(k) = pos {
                    if j < k {
                        assert(paths@[j as int] < paths@[k as int]);
                    } else {
                        assert(paths@[k as int] < paths@[j as int]);
                    }
                }
            }
            c.push(g.per_path_count[j]);
            t.push(g.per_path_total[j]);
        }
        j = j + 1;
    }
    Group {
        dep: g.dep,
        per_path_count: c,
        per_path_total: t,
        count: g.count + 1,
        total: g.total + r.2 as u128,
    }
}


proof fn lemma_group_unaffected(g: Group, recs: Seq<TripRecord>, r: TripRecord, paths: Seq<usize>)
    requires
        group_exact(g, recs, paths),
        g.dep != r.1,
    ensures
        group_exact(g, recs.push(r), paths),
{
    assert forall|j: int| 0 <= j < paths.len() implies #[trigger] g.per_path_count@[j]
        == count_where(recs.push(r), paths[j], g.dep) && g.per_path_total@[j] == sum_where(
        recs.push(r),
        paths[j],
        g.dep,
    ) by {
        assert(g.per_path_count@[j] == count_where(recs, paths[j], g.dep));
        assert(g.per_path_total@[j] == sum_where(recs, paths[j], g.dep));
        lemma_push_counts(recs, r, paths[j], g.dep);
    }
    lemma_push_counts(recs, r, r.0, g.dep);
}

/// Groups the trips by departure time, in increasing order of time.
fn group_trips(recs: &Vec<TripRecord>, paths: &Vec<usize>) -> (groups: Vec<Group>)
    requires
        strictly_increasing_paths(paths@),
    ensures
        strictly_increasing(group_times(groups@)),
        forall|d: u64| departs_at(recs@, d) <==> #[trigger] group_times(groups@).contains(d),
        forall|k: int| 0 <= k < groups@.len() ==> group_exact(#[trigger] groups@[k], recs@, paths@),
{
    let mut groups: Vec<Group> = Vec::new();
    let mut i: usize = 0;
    while i < recs.len()
        invariant
            strictly_increasing_paths(paths@),
            i <= recs@.len(),
            strictly_increasing(group_times(groups@)),
            forall|d: u64|
                departs_at(recs@.take(i as int), d) <==> #[trigger] group_times(groups@).contains(d),
            forall|k: int|
                0 <= k < groups@.len() ==> group_exact(
                    #[trigger] groups@[k],
                    recs@.take(i as int),
                    paths@,
                ),
        decreases recs@.len() - i,
    {
        let r = recs[i];
        let ghost before = recs@.take(i as int);
        let ghost after = recs@.take(i + 1);
        assert(after =~= before.push(r));
        let pos = position_of(paths, r.0);
        let (found, at) = find_group(&groups, r.1);
        let ghost old_groups = groups@;
        if found {
            let g = add_trip(&groups[at], r, pos, Ghost(before), paths);
            groups.set(at, g);
            proof {
                assert(group_times(groups@) =~= group_times(old_groups));
                assert forall|k: int| 0 <= k < groups@.len() implies group_exact(
                    #[trigger] groups@[k],
                    after,
                    paths@,
                ) by {
                    if k != at {
                        assert(groups@[k] == old_groups[k]);
                        assert(group_times(old_groups)[k] != group_times(old_groups)[at as int]);
                        lemma_group_unaffected(old_groups[k], before, r, paths@);
                    }
                }
                assert forall|d: u64| departs_at(after, d) <==> #[trigger] group_times(groups@).contains(d) by {
                    if departs_at(after, d) {
                        let j = choose|j: int| 0 <= j < after.len() && after[j].1 == d;
                        if j < before.len() {
                            assert(before[j] == after[j]);
                            assert(departs_at(before, d));
                        } else {
                            assert(group_times(groups@)[at as int] == d);
                        }
                    }
                    if departs_at(before, d) {
                        let j = choose|j: int| 0 <= j < before.len() && before[j].1 == d;
                        assert(after[j] == before[j]);
                    }
                }
            }
        } else {
            proof {
                assert(!departs_at(before, r.1)) by {
                    if departs_at(before, r.1) {
                        assert(group_times(old_groups).contains(r.1));
                        let k = choose|k: int| 0 <= k < old_groups.len() && group_times(old_groups)[k] == r.1;
                        if k < at {
                            assert(old_groups[k].dep < r.1);
                        } else {
                            assert(old_groups[k].dep > r.1);
                        }
                    }
                }
                assert forall|j: int| 0 <= j < paths@.len() implies count_where(before, paths@[j], r.1)
                    == 0 && sum_where(before, paths@[j], r.1) == 0 by {
                    lemma_no_departure_no_trips(before, paths@[j], r.1);
                }
                lemma_no_departure_no_trips(before, r.0, r.1);
            }
            let e = empty_group(r.1, paths.len());
            assert(group_exact(e, before, paths@));
            let g = add_trip(&e, r, pos, Ghost(before), paths);
            groups.insert(at, g);
            proof {
                assert(group_times(groups@) =~= group_times(old_groups).insert(at as int, r.1));
                assert forall|a: int, b: int|
                    0 <= a < b < group_times(groups@).len() implies group_times(groups@)[a]
                    < group_times(groups@)[b] by {
                    if a < at && b < at {
                        assert(group_times(old_groups)[a] < group_times(old_groups)[b]);
                    } else if a < at && b == at {
                        assert(old_groups[a].dep < r.1);
                    } else if a < at {
                        assert(old_groups[b - 1].dep > r.1);
                        assert(old_groups[a].dep < r.1);
                    } else if a == at {
                        assert(old_groups[b - 1].dep > r.1);
                    } else {
                        assert(group_times(old_groups)[a - 1] < group_times(old_groups)[b - 1]);
                    }
                }
                assert forall|k: int| 0 <= k < groups@.len() implies group_exact(
                    #[trigger] groups@[k],
                    after,
                    paths@,
                ) by {
                    if k < at {
                        assert(groups@[k] == old_groups[k]);
                        assert(old_groups[k].dep < r.1);
                        lemma_group_unaffected(old_groups[k], before, r, paths@);
                    } else if k > at {
                        assert(groups@[k] == old_groups[k - 1]);
                        assert(old_groups[k - 1].dep > r.1);
                        lemma_group_unaffected(old_groups[k - 1], before, r, paths@);
                    }
                }
                assert forall|d: u64| departs_at(after, d) <==> #[trigger] group_times(groups@).contains(d) by {
                    if departs_at(after, d) {
                        let j = choose|j: int| 0 <= j < after.len() && after[j].1 == d;
                        if j < before.len() {
                            assert(before[j] == after[j]);
                            assert(departs_at(before, d));
                            assert(group_times(old_groups).contains(d));
                            let k = choose|k: int| 0 <= k < old_groups.len() && group_times(old_groups)[k] == d;
                            if k < at {
                                assert(group_times(groups@)[k] == d);
                            } else {
                                assert(group_times(groups@)[k + 1] == d);
                            }
                        } else {
                            assert(group_times(groups@)[at as int] == d);
                        }
                    }
                    if group_times(groups@).contains(d) {
                        let k = choose|k: int| 0 <= k < groups@.len() && group_times(groups@)[k] == d;
                        if k == at {
                            assert(after[i as int].1 == d);
                        } else {
                            let k0 = if k < at { k } else { k - 1 };
                            assert(group_times(old_groups)[k0] == d);
                            assert(group_times(old_groups).contains(d));
                            assert(departs_at(before, d));
                            let j = choose|j: int| 0 <= j < before.len() && before[j].1 == d;
                            assert(after[j] == before[j]);
                        }
                    }
                }
            }
        }
        i = i + 1;
    }
    assert(recs@.take(recs@.len() as int) =~= recs@);
    groups
}


proof fn lemma_count_until_bounded(recs: Seq<TripRecord>, p: usize, d: u64)
    ensures
        count_until(recs, p, d) <= recs.len(),
    decreases recs.len(),
{
    if recs.len() > 0 {
        lemma_count_until_bounded(recs.drop_last(), p, d);
    }
}

/// With no trip departing strictly between `a` and `b`, the trips up to `b` are those up
/// to `a` and those at `b`.
proof fn lemma_count_until_step(recs: Seq<TripRecord>, p: usize, a: u64, b: u64)
    requires
        a < b,
        forall|i: int| 0 <= i < recs.len() ==> !(a < #[trigger] recs[i].1 < b),
    ensures
        count_until(recs, p, b) == count_until(recs, p, a) + count_where(recs, p, b),
    decreases recs.len(),
{
    if recs.len() > 0 {
        let t = recs.drop_last();
        assert forall|i: int| 0 <= i < t.len() implies !(a < #[trigger] t[i].1 < b) by {
            assert(t[i] == recs[i]);
        }
        lemma_count_until_step(t, p, a, b);
        assert(!(a < recs[recs.len() - 1].1 < b));
    }
}

/// Fewer trips depart up to an earlier time.
proof fn lemma_count_until_monotone(recs: Seq<TripRecord>, p: usize, a: u64, b: u64)
    requires
        a <= b,
    ensures
        count_until(recs, p, a) <= count_until(recs, p, b),
    decreases recs.len(),
{
    if recs.len() > 0 {
        lemma_count_until_monotone(recs.drop_last(), p, a, b);
    }
}

/// A travel time row by its values.
pub open spec fn row_view(r: TravelTimeRow) -> (u64, Seq<TravelTimeSum>, TravelTimeSum) {
    (r.departure_time, r.per_path@, r.all_paths)
}

/// A summed departures row by its values.
pub open spec fn sums_view(r: SummedDeparturesRow) -> (u64, Seq<usize>) {
    (r.departure_time, r.per_path@)
}

/// Both tables by their values: path indices, travel time rows, summed departures rows.
pub open spec fn tables_view(t: TripTables) -> (
    Seq<usize>,
    Seq<(u64, Seq<TravelTimeSum>, TravelTimeSum)>,
    Seq<(u64, Seq<usize>)>,
) {
    (
        t.path_indices@,
        t.travel_times@.map_values(|r: TravelTimeRow| row_view(r)),
        t.summed_departures@.map_values(|r: SummedDeparturesRow| sums_view(r)),
    )
}

/// Two strictly increasing sequences with the same values are the same sequence.
proof fn lemma_increasing_same_values(a: Seq<u64>, b: Seq<u64>)
    requires
        strictly_increasing(a),
        strictly_increasing(b),
        forall|d: u64| a.contains(d) <==> b.contains(d),
    ensures
        a == b,
    decreases a.len(),
{
    if a.len() == 0 {
        if b.len() > 0 {
            assert(b.contains(b[0]));
        }
        assert(a =~= b);
    } else if b.len() == 0 {
        assert(a.contains(a[0]));
    } else {
        assert(a.contains(a[0]));
        assert(b.contains(b[0]));
        let j = choose|j: int| 0 <= j < b.len() && b[j] == a[0];
        let k = choose|k: int| 0 <= k < a.len() && a[k] == b[0];
        assert(a[0] == b[0]) by {
            if j > 0 {
                assert(b[0] < b[j]);
            }
            if k > 0 {
                assert(a[0] < a[k]);
            }
        }
        let a1 = a.drop_first();
        let b1 = b.drop_first();
        assert forall|d: u64| a1.contains(d) <==> b1.contains(d) by {
            if a1.contains(d) {
                let x = choose|x: int| 0 <= x < a1.len() && a1[x] == d;
                assert(a[x + 1] == d);
                assert(a[0] < a[x + 1]);
                assert(a.contains(d));
                let y = choose|y: int| 0 <= y < b.len() && b[y] == d;
                assert(y > 0);
                assert(b1[y - 1] == d);
            }
            if b1.contains(d) {
                let x = choose|x: int| 0 <= x < b1.len() && b1[x] == d;
                assert(b[x + 1] == d);
                assert(b[0] < b[x + 1]);
                assert(b.contains(d));
                let y = choose|y: int| 0 <= y < a.len() && a[y] == d;
                assert(y > 0);
                assert(a1[y - 1] == d);
            }
        }
        lemma_increasing_same_values(a1, b1);
        assert(a =~= b) by {
            assert forall|i: int| 0 <= i < a.len() implies a[i] == b[i] by {
                if i > 0 {
                    assert(a[i] == a1[i - 1]);
                    assert(b[i] == b1[i - 1]);
                }
            }
        }
    }
}

/// Two strictly increasing sequences of path indices with the same values are the same sequence.
pub(crate) proof fn lemma_increasing_paths_same_values(a: Seq<usize>, b: Seq<usize>)
    requires
        strictly_increasing_paths(a),
        strictly_increasing_paths(b),
        forall|d: usize| a.contains(d) <==> b.contains(d),
    ensures
        a == b,
    decreases a.len(),
{
    if a.len() == 0 {
        if b.len() > 0 {
            assert(b.contains(b[0]));
        }
        assert(a =~= b);
    } else if b.len() == 0 {
        assert(a.contains(a[0]));
    } else {
        assert(a.contains(a[0]));
        assert(b.contains(b[0]));
        let j = choose|j: int| 0 <= j < b.len() && b[j] == a[0];
        let k = choose|k: int| 0 <= k < a.len() && a[k] == b[0];
        assert(a[0] == b[0]) by {
            if j > 0 {
                assert(b[0] < b[j]);
            }
            if k > 0 {
                assert(a[0] < a[k]);
            }
        }
        let a1 = a.drop_first();
        let b1 = b.drop_first();
        assert forall|d: usize| a1.contains(d) <==> b1.contains(d) by {
            if a1.contains(d) {
                let x = choose|x: int| 0 <= x < a1.len() && a1[x] == d;
                assert(a[x + 1] == d);
                assert(a[0] < a[x + 1]);
                assert(a.contains(d));
                let y = choose|y: int| 0 <= y < b.len() && b[y] == d;
                assert(y > 0);
                assert(b1[y - 1] == d);
            }
            if b1.contains(d) {
                let x = choose|x: int| 0 <= x < b1.len() && b1[x] == d;
                assert(b[x + 1] == d);
                assert(b[0] < b[x + 1]);
                assert(b.contains(d));
                let y = choose|y: int| 0 <= y < a.len() && a[y] == d;
                assert(y > 0);
                assert(a1[y - 1] == d);
            }
        }
        lemma_increasing_paths_same_values(a1, b1);
        assert(a =~= b) by {
            assert forall|i: int| 0 <= i < a.len() implies a[i] == b[i] by {
                if i > 0 {
                    assert(a[i] == a1[i - 1]);
                    assert(b[i] == b1[i - 1]);
                }
            }
        }
    }
}

/// The tables of a list of trips are unique: two tables that are both exact for the
/// same trips and path indices hold the same values.
pub proof fn law_exact_tables_unique(t1: TripTables, t2: TripTables, recs: Seq<TripRecord>, paths: Seq<usize>)
    requires
        tables_exact(t1, recs, paths),
        tables_exact(t2, recs, paths),
    ensures
        tables_view(t1) == tables_view(t2),
{
    let r1 = t1.travel_times@;
    let r2 = t2.travel_times@;
    assert forall|d: u64| row_times(r1).contains(d) <==> row_times(r2).contains(d) by {
        assert(departs_at(recs, d) <==> row_times(r1).contains(d));
        assert(departs_at(recs, d) <==> row_times(r2).contains(d));
    }
    lemma_increasing_same_values(row_times(r1), row_times(r2));
    assert(r1.len() == row_times(r1).len());
    assert(r2.len() == row_times(r2).len());
    let v1 = tables_view(t1);
    let v2 = tables_view(t2);
    assert forall|i: int| 0 <= i < r1.len() implies row_view(r1[i]) == row_view(r2[i]) by {
        assert(row_times(r1)[i] == r1[i].departure_time);
        assert(row_times(r2)[i] == r2[i].departure_time);
        assert(travel_time_row_exact(r1[i], recs, paths));
        assert(travel_time_row_exact(r2[i], recs, paths));
        assert forall|j: int| 0 <= j < paths.len() implies r1[i].per_path@[j] == r2[i].per_path@[j] by {
            assert(r1[i].per_path@[j].count == r2[i].per_path@[j].count);
            assert(r1[i].per_path@[j].total == r2[i].per_path@[j].total);
        }
        assert(r1[i].per_path@ =~= r2[i].per_path@);
    }
    assert(v1.1 =~= v2.1);
    let s1 = t1.summed_departures@;
    let s2 = t2.summed_departures@;
    assert forall|i: int| 0 <= i < s1.len() implies sums_view(s1[i]) == sums_view(s2[i]) by {
        assert(row_times(r1)[i] == r1[i].departure_time);
        assert(row_times(r2)[i] == r2[i].departure_time);
        assert(s1[i].departure_time == r1[i].departure_time);
        assert(s2[i].departure_time == r2[i].departure_time);
        assert(summed_departures_row_exact(s1[i], recs, paths));
        assert(summed_departures_row_exact(s2[i], recs, paths));
        assert(s1[i].per_path@ =~= s2[i].per_path@);
    }
    assert(v1.2 =~= v2.2);
}

/// The summed departures never decrease down the table: on every path, a later row
/// counts at least the departures of an earlier one.
pub proof fn law_summed_departures_never_decrease(t: TripTables, recs: Seq<TripRecord>, paths: Seq<usize>)
    requires
        tables_exact(t, recs, paths),
    ensures
        forall|i: int, j: int, k: int|
            0 <= i < j < t.summed_departures@.len() && 0 <= k < paths.len() ==> #[trigger] t.summed_departures@[i].per_path@[k]
                <= #[trigger] t.summed_departures@[j].per_path@[k],
{
    assert forall|i: int, j: int, k: int|
        0 <= i < j < t.summed_departures@.len() && 0 <= k < paths.len() implies #[trigger] t.summed_departures@[i].per_path@[k]
            <= #[trigger] t.summed_departures@[j].per_path@[k] by {
        let rows = t.travel_times@;
        assert(row_times(rows)[i] == rows[i].departure_time);
        assert(row_times(rows)[j] == rows[j].departure_time);
        assert(summed_departures_row_exact(t.summed_departures@[i], recs, paths));
        assert(summed_departures_row_exact(t.summed_departures@[j], recs, paths));
        lemma_count_until_monotone(recs, paths[k], rows[i].departure_time, rows[j].departure_time);
    }
}

/// With no trip departing before `b`, the trips up to `b` are those at `b`.
proof fn lemma_count_until_first(recs: Seq<TripRecord>, p: usize, b: u64)
    requires
        forall|i: int| 0 <= i < recs.len() ==> #[trigger] recs[i].1 >= b,
    ensures
        count_until(recs, p, b) == count_where(recs, p, b),
    decreases recs.len(),
{
    if recs.len() > 0 {
        let t = recs.drop_last();
        assert forall|i: int| 0 <= i < t.len() implies #[trigger] t[i].1 >= b by {
            assert(t[i] == recs[i]);
        }
        lemma_count_until_first(t, p, b);
        assert(recs[recs.len() - 1].1 >= b);
    }
}

/// The travel time row of a group.
fn travel_time_row(g: &Group) -> (row: TravelTimeRow)
    requires
        g.per_path_total@.len() == g.per_path_count@.len(),
    ensures
        row.departure_time == g.dep,
        row.per_path@.len() == g.per_path_count@.len(),
        forall|j: int|
            0 <= j < row.per_path@.len() ==> (#[trigger] row.per_path@[j]).count == g.per_path_count@[j]
                && row.per_path@[j].total == g.per_path_total@[j],
        row.all_paths.count == g.count,
        row.all_paths.total == g.total,
{
    let mut per_path: Vec<TravelTimeSum> = Vec::new();
    let mut j: usize = 0;
    while j < g.per_path_count.len()
        invariant
            g.per_path_total@.len() == g.per_path_count@.len(),
            j <= g.per_path_count@.len(),
            per_path@.len() == j,
            forall|k: int|
                0 <= k < j ==> (#[trigger] per_path@[k]).count == g.per_path_count@[k]
                    && per_path@[k].total == g.per_path_total@[k],
        decreases g.per_path_count@.len() - j,
    {
        per_path.push(TravelTimeSum { count: g.per_path_count[j], total: g.per_path_total[j] });
        j = j + 1;
    }
    TravelTimeRow {
        departure_time: g.dep,
        per_path,
        all_paths: TravelTimeSum { count: g.count, total: g.total },
    }
}

/// The travel time and summed departures tables of the trips `recs`, for the path indices
/// `paths`.
pub fn trip_tables(recs: &Vec<TripRecord>, paths: &Vec<usize>) -> (t: TripTables)
    requires
        strictly_increasing_paths(paths@),
    ensures
        tables_exact(t, recs@, paths@),
{
    let groups = group_trips(recs, paths);
    let nrecs = recs.len();
    let mut rows: Vec<TravelTimeRow> = Vec::new();
    let mut sums: Vec<SummedDeparturesRow> = Vec::new();
    let mut running: Vec<usize> = Vec::new();
    let mut j: usize = 0;
    while j < paths.len()
        invariant
            j <= paths@.len(),
            running@.len() == j,
            forall|k: int| 0 <= k < j ==> running@[k] == 0,
        decreases paths@.len() - j,
    {
        running.push(0);
        j = j + 1;
    }
    let mut k: usize = 0;
    while k < groups.len()
        invariant
            strictly_increasing_paths(paths@),
            strictly_increasing(group_times(groups@)),
            forall|d: u64| departs_at(recs@, d) <==> #[trigger] group_times(groups@).contains(d),
            forall|m: int| 0 <= m < groups@.len() ==> group_exact(#[trigger] groups@[m], recs@, paths@),
            k <= groups@.len(),
            nrecs == recs@.len(),
            rows@.len() == k,
            sums@.len() == k,
            running@.len() == paths@.len(),
            forall|m: int| 0 <= m < k ==> #[trigger] rows@[m].departure_time == groups@[m].dep,
            forall|m: int| 0 <= m < k ==> travel_time_row_exact(#[trigger] rows@[m], recs@, paths@),
            forall|m: int|
                0 <= m < k ==> (#[trigger] sums@[m]).departure_time == groups@[m].dep
                    && summed_departures_row_exact(sums@[m], recs@, paths@),
            k > 0 ==> forall|q: int|
                0 <= q < paths@.len() ==> #[trigger] running@[q] == count_until(
                    recs@,
                    paths@[q],
                    groups@[k - 1].dep,
                ),
            k == 0 ==> forall|q: int| 0 <= q < paths@.len() ==> #[trigger] running@[q] == 0,
        decreases groups@.len() - k,
    {
        let g = &groups[k];
        let row = travel_time_row(g);
        proof {
            assert(group_exact(groups@[k as int], recs@, paths@));
        }
        let ghost old_running = running@;
        let mut next: Vec<usize> = Vec::new();
        let mut q: usize = 0;
        while q < paths.len()
            invariant
                strictly_increasing(group_times(groups@)),
                forall|d: u64| departs_at(recs@, d) <==> #[trigger] group_times(groups@).contains(d),
                group_exact(*g, recs@, paths@),
                *g == groups@[k as int],
                k < groups@.len(),
                q <= paths@.len(),
                running@ == old_running,
                running@.len() == paths@.len(),
                nrecs == recs@.len(),
                next@.len() == q,
                k > 0 ==> forall|x: int|
                    0 <= x < paths@.len() ==> #[trigger] running@[x] == count_until(
                        recs@,
                        paths@[x],
                        groups@[k - 1].dep,
                    ),
                k == 0 ==> forall|x: int| 0 <= x < paths@.len() ==> #[trigger] running@[x] == 0,
                forall|x: int|
                    0 <= x < q ==> #[trigger] next@[x] == count_until(recs@, paths@[x], g.dep),
            decreases paths@.len() - q,
        {
            proof {
                let p = paths@[q as int];
                if k > 0 {
                    let a = groups@[k - 1].dep;
                    assert(group_times(groups@)[k - 1] < group_times(groups@)[k as int]);
                    assert forall|i: int| 0 <= i < recs@.len() implies !(a < #[trigger] recs@[i].1
                        < g.dep) by {
                        let d = recs@[i].1;
                        if a < d < g.dep {
                            assert(departs_at(recs@, d));
                            assert(group_times(groups@).contains(d));
                            let m = choose|m: int| 0 <= m < groups@.len() && group_times(groups@)[m] == d;
                            if m < k {
                                if m < k - 1 {
                                    assert(group_times(groups@)[m] < group_times(groups@)[k - 1]);
                                }
                            } else if m > k {
                                assert(group_times(groups@)[k as int] < group_times(groups@)[m]);
                            }
                        }
                    }
                    lemma_count_until_step(recs@, p, a, g.dep);
                } else {
                    assert forall|i: int| 0 <= i < recs@.len() implies #[trigger] recs@[i].1 >= g.dep by {
                        let d = recs@[i].1;
                        if d < g.dep {
                            assert(departs_at(recs@, d));
                            assert(group_times(groups@).contains(d));
                            let m = choose|m: int| 0 <= m < groups@.len() && group_times(groups@)[m] == d;
                            if m > 0 {
                                assert(group_times(groups@)[0] < group_times(groups@)[m]);
                            }
                        }
                    }
                    lemma_count_until_first(recs@, p, g.dep);
                }
                lemma_count_until_bounded(recs@, p, g.dep);
                assert(g.per_path_count@[q as int] == count_where(recs@, p, g.dep));
                assert(running@[q as int] + g.per_path_count@[q as int] == count_until(recs@, p, g.dep));
            }
            next.push(running[q] + g.per_path_count[q]);
            q = q + 1;
        }
        running = next;
        let ghost cum = running@;
        sums.push(SummedDeparturesRow { departure_time: g.dep, per_path: running.clone() });
        rows.push(row);
        proof {
            assert(sums@[k as int].per_path@ == cum);
        }
        k = k + 1;
    }
    let t = TripTables { path_indices: paths.clone(), travel_times: rows, summed_departures: sums };
    proof {
        assert(row_times(t.travel_times@) =~= group_times(groups@));
    }
    t
}


/// The distinct values, in increasing order (`sort_unstable` then `dedup`).
pub fn sorted_unique(vals: &Vec<usize>) -> (r: Vec<usize>)
    ensures
        strictly_increasing_paths(r@),
        forall|v: usize| #![trigger r@.contains(v)] r@.contains(v) <==> vals@.contains(v),
{
    let mut r: Vec<usize> = Vec::new();
    let mut i: usize = 0;
    while i < vals.len()
        invariant
            i <= vals@.len(),
            strictly_increasing_paths(r@),
            forall|v: usize| #![trigger r@.contains(v)] r@.contains(v) <==> vals@.take(i as int).contains(v),
        decreases vals@.len() - i,
    {
        let v = vals[i];
        let ghost old_r = r@;
        let mut pos: usize = 0;
        while pos < r.len() && r[pos] < v
            invariant
                pos <= r@.len(),
                r@ == old_r,
                forall|j: int| 0 <= j < pos ==> r@[j] < v,
            decreases r@.len() - pos,
        {
            pos = pos + 1;
        }
        if pos < r.len() && r[pos] == v {
        } else {
            r.insert(pos, v);
            proof {
                assert forall|a: int, b: int| 0 <= a < b < r@.len() implies r@[a] < r@[b] by {
                    if b < pos {
                        assert(old_r[a] < old_r[b]);
                    } else if b == pos {
                    } else if a < pos {
                        assert(old_r[b - 1] >= v) by {
                            if b - 1 > pos {
                                assert(old_r[pos as int] < old_r[b - 1]);
                            }
                        }
                    } else if a == pos {
                        assert(old_r[b - 1] >= v) by {
                            if b - 1 > pos {
                                assert(old_r[pos as int] < old_r[b - 1]);
                            }
                        }
                        assert(old_r[pos as int] != v);
                        if b - 1 > pos {
                            assert(old_r[pos as int] < old_r[b - 1]);
                        }
                    } else {
                        assert(old_r[a - 1] < old_r[b - 1]);
                    }
                }
            }
        }
        proof {
            let next = vals@.take(i + 1);
            let prev = vals@.take(i as int);
            assert(next =~= prev.push(v));
            assert forall|w: usize| #![trigger r@.contains(w)] r@.contains(w) <==> next.contains(w) by {
                if r@.contains(w) {
                    let j = choose|j: int| 0 <= j < r@.len() && r@[j] == w;
                    if w != v {
                        if r@.len() != old_r.len() {
                            if j < pos {
                                assert(old_r[j] == w);
                            } else {
                                assert(old_r[j - 1] == w);
                            }
                        }
                        assert(old_r.contains(w));
                        assert(prev.contains(w));
                        let m = choose|m: int| 0 <= m < prev.len() && prev[m] == w;
                        assert(next[m] == w);
                    } else {
                        assert(next[i as int] == w);
                    }
                }
                if next.contains(w) {
                    let m = choose|m: int| 0 <= m < next.len() && next[m] == w;
                    if m < i {
                        assert(prev[m] == w);
                        assert(old_r.contains(w));
                        let j = choose|j: int| 0 <= j < old_r.len() && old_r[j] == w;
                        if r@.len() != old_r.len() {
                            if j < pos {
                                assert(r@[j] == w);
                            } else {
                                assert(r@[j + 1] == w);
                            }
                        } else {
                            assert(r@[j] == w);
                        }
                    } else {
                        if r@.len() != old_r.len() {
                            assert(r@[pos as int] == w);
                        } else {
                            assert(r@[pos as int] == w);
                        }
                    }
                }
            }
        }
        i = i + 1;
    }
    assert(vals@.take(vals@.len() as int) =~= vals@);
    r
}

} // verus!
