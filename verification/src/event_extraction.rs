//! Bookkeeping of vehicle trips from a simulation's event stream: which vehicle
//! departed when, which path it took, and how long it travelled; and the tables of
//! travel times and summed departures per path that are written at the end.

use crate::int_map::{int_map_entries, int_map_get, int_map_insert, int_map_new, U64Map};
use crate::str_map::StrMap;
use crate::trip_tables::{
    law_exact_tables_unique, law_tables_independent_of_trip_order, lemma_increasing_paths_same_values,
    sorted_unique, tables_view, strictly_increasing_paths, tables_exact, trip_tables, TripRecord, TripTables,
};
use vstd::prelude::*;

verus! {

/// What is known of a vehicle seen in the events. Times are simulation times in the
/// clock's integer units.
#[derive(Clone, Copy, Debug, PartialEq, Eq, Structural)]
pub enum VehicleStatus {
    /// entered traffic at the given time
    HasDeparted(u64),
    /// on the path with the given index, having departed at the given time
    IsOnPath(usize, u64),
    /// arrived: path index, departure time, travel time
    HasArrived(usize, u64, u64),
}

/// A vehicle enters traffic.
#[derive(Clone, Copy, Debug)]
pub struct VehicleEntersTrafficEvent {
    pub time: u64,
    pub vehicle: u64,
}

/// A vehicle leaves traffic.
#[derive(Clone, Copy, Debug)]
pub struct VehicleLeavesTrafficEvent {
    pub time: u64,
    pub vehicle: u64,
}

/// A vehicle enters a link, named by the link's id.
#[derive(Clone, Debug)]
pub struct LinkEnterEvent {
    pub time: u64,
    pub link: String,
    pub vehicle: u64,
}

/// The vehicle cache: vehicle ids to what is known of them.
pub type VehicleCache = U64Map<VehicleStatus>;

/// The error for a link-to-path map name that has no definition.
#[derive(Debug, Clone, PartialEq, Eq)]
pub struct UnimplementedNamedMapError(pub String);

impl UnimplementedNamedMapError {
    /// The error's message.
    pub fn message(&self) -> (m: &String)
        ensures
            *m == self.0,
    {
        &self.0
    }
}

/// `str::to_lowercase`: Unicode lowercase mapping of a string.
pub uninterp spec fn lowercase(s: Seq<char>) -> Seq<char>;

/// `str::to_lowercase` (Unicode lowercase), named by `lowercase`.
#[verifier::external_body]
fn to_lowercase(s: &str) -> (r: String)
    ensures
        r@ == lowercase(s@),
{
    s.to_lowercase()
}

/// Map from link ids to the index of the path that the link marks.
pub struct LinkToPathMap(pub StrMap<usize>);

/// The link-to-path map of the Braess network: link `3_5` marks path 0, `3_4` path 1
/// and `2_4` path 2.
pub open spec fn braess_links() -> Map<Seq<char>, usize> {
    map!["3_5"@ => 0usize, "3_4"@ => 1usize, "2_4"@ => 2usize]
}

/// The error message for a map name without a definition.
pub open spec fn unimplemented_map_message(name: Seq<char>) -> Seq<char> {
    "No link to path map with name "@ + name + " implemented"@
}

impl LinkToPathMap {
    /// The map with the given name, compared case-insensitively. Only "braess" is defined.
    pub fn named(name: &str) -> (r: Result<Self, UnimplementedNamedMapError>)
        ensures
            lowercase(name@) == "braess"@ ==> (r matches Ok(m) && m.0@ == braess_links()),
            lowercase(name@) != "braess"@ ==> (r matches Err(e) && e.0@
                == unimplemented_map_message(name@)),
    {
        let lower = to_lowercase(name);
        let braess = String::from_str("braess");
        proof {
            reveal_strlit("braess");
        }
        if lower == braess {
            let mut m: StrMap<usize> = StrMap::new();
            m.insert(String::from_str("3_5"), 0);
            m.insert(String::from_str("3_4"), 1);
            m.insert(String::from_str("2_4"), 2);
            proof {
                reveal_strlit("3_5");
                reveal_strlit("3_4");
                reveal_strlit("2_4");
                assert(m@ =~= braess_links());
            }
            Ok(LinkToPathMap(m))
        } else {
            let mut msg = String::from_str("No link to path map with name ");
            msg.append(name);
            msg.append(" implemented");
            Err(UnimplementedNamedMapError(msg))
        }
    }
}


impl LinkToPathMap {
    /// The path index that `link` marks, if any.
    pub fn path_of(&self, link: &str) -> (r: Option<usize>)
        ensures
            r == path_lookup(self.0@, link@),
    {
        match self.0.get(link) {
            Some(p) => Some(*p),
            None => None,
        }
    }
}

/// The path index that `link` marks in `links`, if any.
pub open spec fn path_lookup(links: Map<Seq<char>, usize>, link: Seq<char>) -> Option<usize> {
    if links.contains_key(link) {
        Some(links[link])
    } else {
        None
    }
}

/// `a - b`, or zero where `b` exceeds `a`.
pub open spec fn saturating_diff(a: u64, b: u64) -> u64 {
    if a >= b {
        (a - b) as u64
    } else {
        0
    }
}

/// A vehicle may enter traffic only once.
pub open spec fn may_enter_traffic(cache: Map<u64, VehicleStatus>, e: VehicleEntersTrafficEvent) -> bool {
    !cache.contains_key(e.vehicle)
}

/// The cache after a vehicle entered traffic: it has departed at the event's time.
pub open spec fn after_entering_traffic(
    cache: Map<u64, VehicleStatus>,
    e: VehicleEntersTrafficEvent,
) -> Map<u64, VehicleStatus> {
    cache.insert(e.vehicle, VehicleStatus::HasDeparted(e.time))
}

/// A vehicle may leave traffic only while it is on a path.
pub open spec fn may_leave_traffic(cache: Map<u64, VehicleStatus>, e: VehicleLeavesTrafficEvent) -> bool {
    cache.contains_key(e.vehicle) && cache[e.vehicle] is IsOnPath
}

/// The cache after a vehicle on a path left traffic: it has arrived, with the time since
/// its departure as travel time.
pub open spec fn after_leaving_traffic(
    cache: Map<u64, VehicleStatus>,
    e: VehicleLeavesTrafficEvent,
) -> Map<u64, VehicleStatus> {
    match cache[e.vehicle] {
        VehicleStatus::IsOnPath(path, dep) => cache.insert(
            e.vehicle,
            VehicleStatus::HasArrived(path, dep, saturating_diff(e.time, dep)),
        ),
        _ => cache,
    }
}

/// A link that marks a path may only be entered by a vehicle that has departed and is
/// not on another path; other links may be entered by anyone.
pub open spec fn may_enter_link(
    cache: Map<u64, VehicleStatus>,
    links: Map<Seq<char>, usize>,
    e: LinkEnterEvent,
) -> bool {
    match path_lookup(links, e.link@) {
        None => true,
        Some(path) => cache.contains_key(e.vehicle) && match cache[e.vehicle] {
            VehicleStatus::HasDeparted(_) => true,
            VehicleStatus::IsOnPath(current, _) => current == path,
            VehicleStatus::HasArrived(..) => false,
        },
    }
}

/// The cache after a vehicle entered a link: a departed vehicle entering a link that
/// marks a path is now on that path; nothing else changes.
pub open spec fn after_entering_link(
    cache: Map<u64, VehicleStatus>,
    links: Map<Seq<char>, usize>,
    e: LinkEnterEvent,
) -> Map<u64, VehicleStatus> {
    match path_lookup(links, e.link@) {
        Some(path) => match cache[e.vehicle] {
            VehicleStatus::HasDeparted(dep) => cache.insert(
                e.vehicle,
                VehicleStatus::IsOnPath(path, dep),
            ),
            _ => cache,
        },
        None => cache,
    }
}

/// An event handler that records, per vehicle, departure time, path and travel time,
/// and at the end tabulates travel times and summed departures per path.
/// Expected use is scenarios where a path is marked by a single link and every vehicle
/// makes one trip.
pub struct TravelTimeAndSumDepPerPathCSVWriter {
    vehicle_data_cache: VehicleCache,
    link_to_path_lookup: LinkToPathMap,
    tt_output_csv_path: String,
    sd_output_csv_path: String,
    beta: usize,
}

impl TravelTimeAndSumDepPerPathCSVWriter {
    /// What is known of each vehicle seen so far.
    pub closed spec fn cache(&self) -> Map<u64, VehicleStatus> {
        self.vehicle_data_cache@
    }

    /// The links that mark paths.
    pub closed spec fn links(&self) -> Map<Seq<char>, usize> {
        self.link_to_path_lookup.0@
    }

    /// Path of the travel time table.
    pub closed spec fn tt_path(&self) -> Seq<char> {
        self.tt_output_csv_path@
    }

    /// Path of the summed departures table.
    pub closed spec fn sd_path(&self) -> Seq<char> {
        self.sd_output_csv_path@
    }

    /// Parameter beta of the simulated scenario.
    pub closed spec fn beta_spec(&self) -> usize {
        self.beta
    }

    /// A handler with no vehicle seen yet.
    pub fn new(link_to_path_map: LinkToPathMap, tt_csv_path: &str, sd_csv_path: &str, beta: usize) -> (w: Self)
        ensures
            w.cache().dom() == Set::<u64>::empty(),
            w.links() == link_to_path_map.0@,
            w.tt_path() == tt_csv_path@,
            w.sd_path() == sd_csv_path@,
            w.beta_spec() == beta,
    {
        TravelTimeAndSumDepPerPathCSVWriter {
            vehicle_data_cache: int_map_new(),
            link_to_path_lookup: link_to_path_map,
            tt_output_csv_path: String::from_str(tt_csv_path),
            sd_output_csv_path: String::from_str(sd_csv_path),
            beta,
        }
    }

    /// What is known of `vehicle`.
    pub fn status_of(&self, vehicle: u64) -> (r: Option<VehicleStatus>)
        ensures
            r == (if self.cache().contains_key(vehicle) {
                Some(self.cache()[vehicle])
            } else {
                None
            }),
    {
        match int_map_get(&self.vehicle_data_cache, vehicle) {
            Some(s) => Some(*s),
            None => None,
        }
    }

    /// The path index that `link` marks, if any.
    pub fn path_of_link(&self, link: &str) -> (r: Option<usize>)
        ensures
            r == path_lookup(self.links(), link@),
    {
        self.link_to_path_lookup.path_of(link)
    }

    /// A vehicle entered traffic: it has departed at the event's time.
    pub fn on_vet(&mut self, e: &VehicleEntersTrafficEvent)
        requires
            may_enter_traffic(old(self).cache(), *e),
        ensures
            final(self).cache() == after_entering_traffic(old(self).cache(), *e),
            final(self).links() == old(self).links(),
            final(self).tt_path() == old(self).tt_path(),
            final(self).sd_path() == old(self).sd_path(),
            final(self).beta_spec() == old(self).beta_spec(),
    {
        int_map_insert(&mut self.vehicle_data_cache, e.vehicle, VehicleStatus::HasDeparted(e.time));
    }

    /// A vehicle on a path left traffic: it has arrived, with the time since its departure
    /// (zero if the event is earlier) as travel time.
    pub fn on_vlt(&mut self, e: &VehicleLeavesTrafficEvent)
        requires
            may_leave_traffic(old(self).cache(), *e),
        ensures
            final(self).cache() == after_leaving_traffic(old(self).cache(), *e),
            final(self).links() == old(self).links(),
            final(self).tt_path() == old(self).tt_path(),
            final(self).sd_path() == old(self).sd_path(),
            final(self).beta_spec() == old(self).beta_spec(),
    {
        match self.status_of(e.vehicle) {
            Some(VehicleStatus::IsOnPath(path, dep_time)) => {
                let travel_time = if e.time >= dep_time {
                    e.time - dep_time
                } else {
                    0
                };
                int_map_insert(
                    &mut self.vehicle_data_cache,
                    e.vehicle,
                    VehicleStatus::HasArrived(path, dep_time, travel_time),
                );
            },
            _ => {},
        }
    }

    /// A vehicle entered a link: if the link marks a path and the vehicle had only
    /// departed, it is now on that path.
    pub fn on_entered_link(&mut self, e: &LinkEnterEvent)
        requires
            may_enter_link(old(self).cache(), old(self).links(), *e),
        ensures
            final(self).cache() == after_entering_link(old(self).cache(), old(self).links(), *e),
            final(self).links() == old(self).links(),
            final(self).tt_path() == old(self).tt_path(),
            final(self).sd_path() == old(self).sd_path(),
            final(self).beta_spec() == old(self).beta_spec(),
    {
        match self.link_to_path_lookup.path_of(e.link.as_str()) {
            Some(index) => match self.status_of(e.vehicle) {
                Some(VehicleStatus::HasDeparted(dep_time)) => {
                    int_map_insert(
                        &mut self.vehicle_data_cache,
                        e.vehicle,
                        VehicleStatus::IsOnPath(index, dep_time),
                    );
                },
                _ => {},
            },
            None => {},
        }
    }
}


/// What the cache knows of a vehicle, if anything.
pub open spec fn known_status(cache: Map<u64, VehicleStatus>, vehicle: u64) -> Option<VehicleStatus> {
    if cache.contains_key(vehicle) {
        Some(cache[vehicle])
    } else {
        None
    }
}

impl TravelTimeAndSumDepPerPathCSVWriter {
    /// Whether the vehicle may enter traffic now; if not, what is known of it.
    pub fn check_vet(&self, e: &VehicleEntersTrafficEvent) -> (r: Result<(), Option<VehicleStatus>>)
        ensures
            r is Ok <==> may_enter_traffic(self.cache(), *e),
            r matches Err(s) ==> s == known_status(self.cache(), e.vehicle),
    {
        match self.status_of(e.vehicle) {
            None => Ok(()),
            Some(s) => Err(Some(s)),
        }
    }

    /// Whether the vehicle may leave traffic now; if not, what is known of it.
    pub fn check_vlt(&self, e: &VehicleLeavesTrafficEvent) -> (r: Result<(), Option<VehicleStatus>>)
        ensures
            r is Ok <==> may_leave_traffic(self.cache(), *e),
            r matches Err(s) ==> s == known_status(self.cache(), e.vehicle),
    {
        match self.status_of(e.vehicle) {
            Some(VehicleStatus::IsOnPath(..)) => Ok(()),
            s => Err(s),
        }
    }

    /// Whether the vehicle may enter the link now; if not, what is known of it.
    pub fn check_entered_link(&self, e: &LinkEnterEvent) -> (r: Result<(), Option<VehicleStatus>>)
        ensures
            r is Ok <==> may_enter_link(self.cache(), self.links(), *e),
            r matches Err(s) ==> s == known_status(self.cache(), e.vehicle),
    {
        match self.path_of_link(e.link.as_str()) {
            None => Ok(()),
            Some(path) => match self.status_of(e.vehicle) {
                Some(VehicleStatus::HasDeparted(_)) => Ok(()),
                Some(VehicleStatus::IsOnPath(current, dep)) => if current == path {
                    Ok(())
                } else {
                    Err(Some(VehicleStatus::IsOnPath(current, dep)))
                },
                s => Err(s),
            },
        }
    }
}

impl TravelTimeAndSumDepPerPathCSVWriter {
    /// The vehicles seen that have not arrived, each once with what is known of it, in the
    /// cache's own (unspecified) order.
    pub fn vehicles_not_arrived(&self) -> (r: Vec<(u64, VehicleStatus)>)
        ensures
            forall|i: int|
                0 <= i < r@.len() ==> self.cache().contains_key(#[trigger] r@[i].0) && self.cache()[r@[i].0]
                    == r@[i].1 && !(r@[i].1 is HasArrived),
            forall|i: int, j: int| 0 <= i < j < r@.len() ==> r@[i].0 != r@[j].0,
            forall|k: u64|
                #[trigger] self.cache().contains_key(k) && !(self.cache()[k] is HasArrived) ==> exists|i: int|
                    0 <= i < r@.len() && r@[i].0 == k,
    {
        let entries = int_map_entries(&self.vehicle_data_cache);
        let ghost cache = self.cache();
        let mut r: Vec<(u64, VehicleStatus)> = Vec::new();
        let mut i: usize = 0;
        while i < entries.len()
            invariant
                cache == self.cache(),
                forall|j: int|
                    0 <= j < entries@.len() ==> #[trigger] cache.contains_key(entries@[j].0)
                        && cache[entries@[j].0] == entries@[j].1,
                forall|a: int, b: int| 0 <= a < b < entries@.len() ==> entries@[a].0 != entries@[b].0,
                i <= entries@.len(),
                forall|j: int|
                    0 <= j < r@.len() ==> cache.contains_key(#[trigger] r@[j].0) && cache[r@[j].0] == r@[j].1
                        && !(r@[j].1 is HasArrived),
                forall|j: int| 0 <= j < r@.len() ==> exists|a: int| 0 <= a < i && entries@[a].0 == #[trigger] r@[j].0,
                forall|a: int, b: int| 0 <= a < b < r@.len() ==> r@[a].0 != r@[b].0,
                forall|a: int|
                    0 <= a < i && !((#[trigger] entries@[a]).1 is HasArrived) ==> exists|j: int|
                        0 <= j < r@.len() && r@[j].0 == entries@[a].0,
            decreases entries@.len() - i,
        {
            let (k, status) = entries[i];
            match status {
                VehicleStatus::HasArrived(..) => {},
                _ => {
                    proof {
                        assert(cache.contains_key(entries@[i as int].0));
                        assert forall|j: int| 0 <= j < r@.len() implies r@[j].0 != k by {
                            let a = choose|a: int| 0 <= a < i && entries@[a].0 == r@[j].0;
                        }
                    }
                    let ghost old_r = r@;
                    r.push((k, status));
                    proof {
                        assert forall|j: int| 0 <= j < r@.len() implies exists|a: int|
                            0 <= a < i + 1 && entries@[a].0 == #[trigger] r@[j].0 by {
                            if j < old_r.len() {
                                assert(r@[j] == old_r[j]);
                            } else {
                                assert(entries@[i as int].0 == r@[j].0);
                            }
                        }
                        assert forall|a: int| 0 <= a < i + 1 && !((#[trigger] entries@[a]).1 is HasArrived)
                            implies exists|j: int| 0 <= j < r@.len() && r@[j].0 == entries@[a].0 by {
                            if a < i {
                                let j = choose|j: int| 0 <= j < old_r.len() && old_r[j].0 == entries@[a].0;
                                assert(r@[j] == old_r[j]);
                            } else {
                                assert(r@[r@.len() - 1].0 == k);
                            }
                        }
                    }
                },
            }
            i = i + 1;
        }
        proof {
            assert forall|k: u64|
                #[trigger] cache.contains_key(k) && !(cache[k] is HasArrived) implies exists|i: int|
                    0 <= i < r@.len() && r@[i].0 == k by {
                let a = choose|a: int| 0 <= a < entries@.len() && entries@[a].0 == k;
                assert(!(entries@[a].1 is HasArrived));
            }
        }
        r
    }
}

/// The departure time recorded in a status.
pub open spec fn departure_of(status: VehicleStatus) -> u64 {
    match status {
        VehicleStatus::HasDeparted(dep) => dep,
        VehicleStatus::IsOnPath(_, dep) => dep,
        VehicleStatus::HasArrived(_, dep, _) => dep,
    }
}

/// Two caches agree on every vehicle other than `v`.
pub open spec fn agree_except(a: Map<u64, VehicleStatus>, b: Map<u64, VehicleStatus>, v: u64) -> bool {
    forall|w: u64|
        w != v ==> (#[trigger] a.contains_key(w) == b.contains_key(w) && (a.contains_key(w) ==> a[w]
            == b[w]))
}

/// A trip recorded in full: a vehicle that enters traffic at `t0`, enters a link that
/// marks path `p`, and leaves traffic at `t1` has arrived on path `p`, departed at `t0`,
/// with travel time `t1 - t0` (zero if `t1 < t0`); each of the three events is allowed.
pub proof fn law_trip_records_path_and_travel_time(
    cache: Map<u64, VehicleStatus>,
    links: Map<Seq<char>, usize>,
    enter: VehicleEntersTrafficEvent,
    link: LinkEnterEvent,
    leave: VehicleLeavesTrafficEvent,
)
    requires
        !cache.contains_key(enter.vehicle),
        link.vehicle == enter.vehicle,
        leave.vehicle == enter.vehicle,
        path_lookup(links, link.link@) is Some,
    ensures
        may_enter_traffic(cache, enter),
        may_enter_link(after_entering_traffic(cache, enter), links, link),
        may_leave_traffic(
            after_entering_link(after_entering_traffic(cache, enter), links, link),
            leave,
        ),
        after_leaving_traffic(
            after_entering_link(after_entering_traffic(cache, enter), links, link),
            leave,
        )[enter.vehicle] == VehicleStatus::HasArrived(
            path_lookup(links, link.link@)->0,
            enter.time,
            saturating_diff(leave.time, enter.time),
        ),
{
}

/// Each event changes what is known of its own vehicle only.
pub proof fn law_events_touch_only_their_vehicle(
    cache: Map<u64, VehicleStatus>,
    links: Map<Seq<char>, usize>,
    enter: VehicleEntersTrafficEvent,
    link: LinkEnterEvent,
    leave: VehicleLeavesTrafficEvent,
)
    ensures
        agree_except(after_entering_traffic(cache, enter), cache, enter.vehicle),
        agree_except(after_entering_link(cache, links, link), cache, link.vehicle),
        agree_except(after_leaving_traffic(cache, leave), cache, leave.vehicle),
{
}

/// Once recorded, a vehicle stays known with the same departure time, and an arrived
/// vehicle's record never changes, whatever allowed event follows.
pub proof fn law_departure_kept_and_arrival_final(
    cache: Map<u64, VehicleStatus>,
    links: Map<Seq<char>, usize>,
    v: u64,
    enter: VehicleEntersTrafficEvent,
    link: LinkEnterEvent,
    leave: VehicleLeavesTrafficEvent,
)
    requires
        cache.contains_key(v),
    ensures
        may_enter_traffic(cache, enter) ==> {
            let after = after_entering_traffic(cache, enter);
            after.contains_key(v) && after[v] == cache[v]
        },
        may_enter_link(cache, links, link) ==> {
            let after = after_entering_link(cache, links, link);
            &&& after.contains_key(v)
            &&& departure_of(after[v]) == departure_of(cache[v])
            &&& cache[v] is HasArrived ==> after[v] == cache[v]
        },
        may_leave_traffic(cache, leave) ==> {
            let after = after_leaving_traffic(cache, leave);
            &&& after.contains_key(v)
            &&& departure_of(after[v]) == departure_of(cache[v])
            &&& cache[v] is HasArrived ==> after[v] == cache[v]
        },
{
}


/// `keys` lists every arrived vehicle of the cache exactly once.
pub open spec fn lists_arrivals(cache: Map<u64, VehicleStatus>, keys: Seq<u64>) -> bool {
    &&& keys.no_duplicates()
    &&& forall|i: int|
        0 <= i < keys.len() ==> cache.contains_key(#[trigger] keys[i]) && cache[keys[i]] is HasArrived
    &&& forall|k: u64| #[trigger]
        cache.contains_key(k) && cache[k] is HasArrived ==> keys.contains(k)
}

/// The trip of an arrived vehicle.
pub open spec fn trip_of(status: VehicleStatus) -> TripRecord {
    match status {
        VehicleStatus::HasArrived(path, dep, tt) => (path, dep, tt),
        VehicleStatus::IsOnPath(path, dep) => (path, dep, 0),
        VehicleStatus::HasDeparted(dep) => (0, dep, 0),
    }
}

/// The trips of the vehicles listed in `keys`, in that order.
pub open spec fn trips_of(cache: Map<u64, VehicleStatus>, keys: Seq<u64>) -> Seq<TripRecord> {
    keys.map_values(|k: u64| trip_of(cache[k]))
}

/// The path indices that some link marks.
pub open spec fn marked_path(links: Map<Seq<char>, usize>, p: usize) -> bool {
    exists|k: Seq<char>| #[trigger] links.contains_key(k) && links[k] == p
}

/// Mapping two listings of the same items gives listings of the same items.
proof fn lemma_map_values_multiset<A, B>(s: Seq<A>, t: Seq<A>, g: spec_fn(A) -> B)
    requires
        s.to_multiset() == t.to_multiset(),
    ensures
        s.map_values(g).to_multiset() == t.map_values(g).to_multiset(),
    decreases s.len(),
{
    broadcast use vstd::multiset::group_multiset_axioms;
    broadcast use vstd::seq_lib::group_to_multiset_ensures;

    s.to_multiset_ensures();
    t.to_multiset_ensures();
    if s.len() == 0 {
        assert(t.to_multiset().len() == t.len());
        assert(s.map_values(g) =~= t.map_values(g));
    } else {
        let x = s.last();
        let s1 = s.drop_last();
        assert(s1.push(x) =~= s);
        assert(s[s.len() - 1] == x);
        assert(s.to_multiset().count(x) > 0);
        assert(t.to_multiset().count(x) > 0);
        let i = choose|i: int| 0 <= i < t.len() && t[i] == x;
        let t1 = t.remove(i);
        assert(s1.to_multiset() =~= s.to_multiset().remove(x));
        assert(t1.to_multiset() =~= t.to_multiset().remove(x));
        lemma_map_values_multiset(s1, t1, g);
        let sm = s.map_values(g);
        let tm = t.map_values(g);
        s1.map_values(g).to_multiset_ensures();
        tm.to_multiset_ensures();
        assert(s1.map_values(g).push(g(x)) =~= sm);
        assert(tm.remove(i) =~= t1.map_values(g));
        assert(tm[i] == g(x));
        assert(tm.remove(i).to_multiset() == tm.to_multiset().remove(g(x)));
        assert(tm.to_multiset().count(g(x)) > 0) by {
            assert(tm.contains(g(x)));
        }
        assert(sm.to_multiset() =~= tm.to_multiset());
    }
}

/// Two listings of the arrived vehicles list the same vehicles.
proof fn lemma_arrival_listings_agree(cache: Map<u64, VehicleStatus>, keys: Seq<u64>, other_keys: Seq<u64>)
    requires
        lists_arrivals(cache, keys),
        lists_arrivals(cache, other_keys),
    ensures
        keys.to_multiset() == other_keys.to_multiset(),
{
    keys.to_multiset_ensures();
    other_keys.to_multiset_ensures();
    keys.lemma_multiset_has_no_duplicates();
    other_keys.lemma_multiset_has_no_duplicates();
    assert forall|k: u64| keys.to_multiset().count(k) == other_keys.to_multiset().count(k) by {
        if keys.contains(k) {
            let i = choose|i: int| 0 <= i < keys.len() && keys[i] == k;
            assert(cache.contains_key(keys[i]) && cache[keys[i]] is HasArrived);
            assert(other_keys.contains(k));
        } else if other_keys.contains(k) {
            let i = choose|i: int| 0 <= i < other_keys.len() && other_keys[i] == k;
            assert(cache.contains_key(other_keys[i]) && cache[other_keys[i]] is HasArrived);
            assert(keys.contains(k));
        }
    }
    assert(keys.to_multiset() =~= other_keys.to_multiset());
}

/// The tables at the end do not depend on the order in which the vehicle cache is
/// walked: for any two listings of the arrived vehicles, tables are exact for the trips
/// of one exactly when they are exact for the trips of the other.
pub proof fn law_tables_independent_of_cache_order(
    t: TripTables,
    cache: Map<u64, VehicleStatus>,
    keys: Seq<u64>,
    other_keys: Seq<u64>,
    paths: Seq<usize>,
)
    requires
        lists_arrivals(cache, keys),
        lists_arrivals(cache, other_keys),
    ensures
        tables_exact(t, trips_of(cache, keys), paths) == tables_exact(t, trips_of(cache, other_keys), paths),
{
    lemma_arrival_listings_agree(cache, keys, other_keys);
    lemma_map_values_multiset(keys, other_keys, |k: u64| trip_of(cache[k]));
    law_tables_independent_of_trip_order(t, trips_of(cache, keys), trips_of(cache, other_keys), paths);
}

/// Two caches agree on the arrived vehicles: the same vehicles have arrived in both,
/// with the same records.
pub open spec fn same_arrivals(a: Map<u64, VehicleStatus>, b: Map<u64, VehicleStatus>) -> bool {
    &&& forall|v: u64|
        #![trigger a.contains_key(v)]
        #![trigger b.contains_key(v)]
        (a.contains_key(v) && a[v] is HasArrived) <==> (b.contains_key(v) && b[v] is HasArrived)
    &&& forall|v: u64| #[trigger] a.contains_key(v) && a[v] is HasArrived ==> b.contains_key(v) && a[v] == b[v]
}

/// Entering traffic and entering links never change the arrived vehicles: only leaving
/// traffic adds an arrival.
pub proof fn law_only_leaving_adds_arrivals(
    cache: Map<u64, VehicleStatus>,
    links: Map<Seq<char>, usize>,
    enter: VehicleEntersTrafficEvent,
    link: LinkEnterEvent,
)
    ensures
        may_enter_traffic(cache, enter) ==> same_arrivals(cache, after_entering_traffic(cache, enter)),
        may_enter_link(cache, links, link) ==> same_arrivals(cache, after_entering_link(cache, links, link)),
{
}

/// Vehicles that never arrive leave the tables unchanged: two caches with the same
/// arrived vehicles (whatever else each has seen, departed or on a path) have exactly the
/// same exact tables, whichever listings of their arrivals are taken.
pub proof fn law_unarrived_vehicles_leave_tables_unchanged(
    t: TripTables,
    cache: Map<u64, VehicleStatus>,
    keys: Seq<u64>,
    other_cache: Map<u64, VehicleStatus>,
    other_keys: Seq<u64>,
    paths: Seq<usize>,
)
    requires
        same_arrivals(cache, other_cache),
        lists_arrivals(cache, keys),
        lists_arrivals(other_cache, other_keys),
    ensures
        tables_exact(t, trips_of(cache, keys), paths) == tables_exact(
            t,
            trips_of(other_cache, other_keys),
            paths,
        ),
{
    assert forall|i: int| 0 <= i < keys.len() implies other_cache.contains_key(#[trigger] keys[i])
        && other_cache[keys[i]] is HasArrived && other_cache[keys[i]] == cache[keys[i]] by {
        assert(cache.contains_key(keys[i]) && cache[keys[i]] is HasArrived);
    }
    assert forall|k: u64| #[trigger] other_cache.contains_key(k) && other_cache[k] is HasArrived implies keys.contains(k) by {
        assert(cache.contains_key(k) && cache[k] is HasArrived);
    }
    assert(lists_arrivals(other_cache, keys));
    assert(trips_of(cache, keys) =~= trips_of(other_cache, keys));
    law_tables_independent_of_cache_order(t, other_cache, keys, other_keys, paths);
}

/// The tables written at the end for a cache and link map: the marked path indices in
/// increasing order, and tables exact for the trips of the arrived vehicles.
pub open spec fn finished_tables(cache: Map<u64, VehicleStatus>, links: Map<Seq<char>, usize>, t: TripTables) -> bool {
    &&& strictly_increasing_paths(t.path_indices@)
    &&& forall|p: usize| #![trigger t.path_indices@.contains(p)]
        t.path_indices@.contains(p) <==> marked_path(links, p)
    &&& exists|keys: Seq<u64>|
        lists_arrivals(cache, keys) && tables_exact(t, #[trigger] trips_of(cache, keys), t.path_indices@)
}

/// Vehicles that never arrive do not change what is written at the end: for two
/// handlers with the same link map whose caches have the same arrived vehicles (whatever
/// else each has seen), the tables at the end hold the same values.
pub proof fn law_unarrived_vehicles_give_equal_tables(
    cache: Map<u64, VehicleStatus>,
    other_cache: Map<u64, VehicleStatus>,
    links: Map<Seq<char>, usize>,
    t: TripTables,
    other_t: TripTables,
)
    requires
        same_arrivals(cache, other_cache),
        finished_tables(cache, links, t),
        finished_tables(other_cache, links, other_t),
    ensures
        tables_view(t) == tables_view(other_t),
{
    assert forall|p: usize| t.path_indices@.contains(p) <==> other_t.path_indices@.contains(p) by {
        assert(t.path_indices@.contains(p) <==> marked_path(links, p));
        assert(other_t.path_indices@.contains(p) <==> marked_path(links, p));
    }
    lemma_increasing_paths_same_values(t.path_indices@, other_t.path_indices@);
    let paths = t.path_indices@;
    let keys = choose|keys: Seq<u64>|
        lists_arrivals(cache, keys) && tables_exact(t, #[trigger] trips_of(cache, keys), t.path_indices@);
    let other_keys = choose|keys: Seq<u64>|
        lists_arrivals(other_cache, keys) && tables_exact(other_t, #[trigger] trips_of(other_cache, keys), other_t.path_indices@);
    law_unarrived_vehicles_leave_tables_unchanged(other_t, cache, keys, other_cache, other_keys, paths);
    law_exact_tables_unique(t, other_t, trips_of(cache, keys), paths);
}

impl TravelTimeAndSumDepPerPathCSVWriter {
    /// Path of the travel time table.
    pub fn tt_output_csv_path(&self) -> (r: &String)
        ensures
            r@ == self.tt_path(),
    {
        &self.tt_output_csv_path
    }

    /// Path of the summed departures table.
    pub fn sd_output_csv_path(&self) -> (r: &String)
        ensures
            r@ == self.sd_path(),
    {
        &self.sd_output_csv_path
    }

    /// Parameter beta of the simulated scenario.
    pub fn beta(&self) -> (r: usize)
        ensures
            r == self.beta_spec(),
    {
        self.beta
    }

    /// The tables written at the end: vehicles that arrived are grouped by departure
    /// time, in increasing order; per marked path (path indices in increasing order) and
    /// over all paths, each travel time row counts the trips and sums their travel times,
    /// and each summed departures row counts the trips per path that departed at its
    /// time or earlier. Vehicles that did not arrive are left out.
    pub fn on_finish(&self) -> (t: TripTables)
        ensures
            finished_tables(self.cache(), self.links(), t),
    {
        let values = self.link_to_path_lookup.0.values();
        let paths = sorted_unique(&values);
        let entries = int_map_entries(&self.vehicle_data_cache);
        let ghost cache = self.cache();
        let mut recs: Vec<TripRecord> = Vec::new();
        let ghost mut keys: Seq<u64> = Seq::empty();
        let mut i: usize = 0;
        while i < entries.len()
            invariant
                cache == self.cache(),
                entries@.len() == cache.dom().len(),
                forall|j: int|
                    0 <= j < entries@.len() ==> #[trigger] cache.contains_key(entries@[j].0)
                        && cache[entries@[j].0] == entries@[j].1,
                forall|a: int, b: int| 0 <= a < b < entries@.len() ==> entries@[a].0 != entries@[b].0,
                i <= entries@.len(),
                keys.no_duplicates(),
                recs@ == trips_of(cache, keys),
                forall|j: int|
                    0 <= j < keys.len() ==> cache.contains_key(#[trigger] keys[j])
                        && cache[keys[j]] is HasArrived,
                forall|j: int|
                    0 <= j < keys.len() ==> exists|a: int| 0 <= a < i && entries@[a].0 == #[trigger] keys[j],
                forall|a: int|
                    0 <= a < i && (#[trigger] entries@[a]).1 is HasArrived ==> keys.contains(entries@[a].0),
            decreases entries@.len() - i,
        {
            let (k, status) = entries[i];
            match status {
                VehicleStatus::HasArrived(path, dep, tt) => {
                    proof {
                        assert(!keys.contains(k)) by {
                            if keys.contains(k) {
                                let j = choose|j: int| 0 <= j < keys.len() && keys[j] == k;
                                let a = choose|a: int| 0 <= a < i && entries@[a].0 == keys[j];
                            }
                        }
                        assert(cache.contains_key(entries@[i as int].0));
                    }
                    recs.push((path, dep, tt));
                    proof {
                        let old_keys = keys;
                        keys = keys.push(k);
                        assert(trips_of(cache, keys) =~= trips_of(cache, old_keys).push(trip_of(cache[k])));
                        assert forall|j: int| 0 <= j < keys.len() implies exists|a: int|
                            0 <= a < i + 1 && entries@[a].0 == #[trigger] keys[j] by {
                            if j < old_keys.len() {
                                assert(keys[j] == old_keys[j]);
                            } else {
                                assert(entries@[i as int].0 == keys[j]);
                            }
                        }
                        assert forall|a: int| 0 <= a < i + 1 && (#[trigger] entries@[a]).1 is HasArrived
                            implies keys.contains(entries@[a].0) by {
                            if a < i {
                                assert(old_keys.contains(entries@[a].0));
                                let j = choose|j: int| 0 <= j < old_keys.len() && old_keys[j] == entries@[a].0;
                                assert(keys[j] == old_keys[j]);
                            } else {
                                assert(keys[keys.len() - 1] == k);
                            }
                        }
                    }
                },
                _ => {},
            }
            i = i + 1;
        }
        proof {
            assert forall|k: u64| #[trigger] cache.contains_key(k) && cache[k] is HasArrived implies keys.contains(k) by {
                let a = choose|a: int| 0 <= a < entries@.len() && entries@[a].0 == k;
                assert(entries@[a].1 is HasArrived);
            }
            assert(lists_arrivals(cache, keys));
        }
        let t = trip_tables(&recs, &paths);
        proof {
            assert forall|p: usize| #![trigger t.path_indices@.contains(p)]
                t.path_indices@.contains(p) <==> marked_path(self.links(), p) by {
                if t.path_indices@.contains(p) {
                    assert(values@.contains(p));
                }
                if marked_path(self.links(), p) {
                    assert(values@.contains(p));
                }
            }
        }
        t
    }
}

} // verus!
