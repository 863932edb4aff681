//! Queries on the dataset: the records related to a given stop, route or
//! trip, as copies taken in table order.
use vstd::prelude::*;

use crate::dataset::{find_key, key_position, lemma_key_position, Dataset};
use crate::ids::{RouteId, StopId, TripId};
use crate::station::{Level, LocationGroup};
use crate::stop::Stop;
use crate::stop_time::StopTime;
use crate::trip::Trip;

verus! {

impl Dataset {
    /// The locations among the first `n` stops whose parent station is `id`.
    pub open spec fn children_prefix(&self, id: Seq<char>, n: int) -> Seq<Stop>
        decreases n,
    {
        if n <= 0 {
            Seq::empty()
        } else {
            let prev = self.children_prefix(id, n - 1);
            let s = self.stops@[n - 1];
            if s.parent_station is Some && s.parent_station.unwrap().0@ == id {
                prev.push(s)
            } else {
                prev
            }
        }
    }

    /// The first location whose parent station is `stop_id`.
    pub fn stop_get_parent_station(&self, stop_id: &StopId) -> (r: Option<Stop>)
        ensures
            ({
                let kids = self.children_prefix(stop_id.0@, self.stops@.len() as int);
                r == if kids.len() > 0 {
                    Some(kids[0])
                } else {
                    None::<Stop>
                }
            }),
    {
        let mut i: usize = 0;
        while i < self.stops.len()
            invariant
                0 <= i <= self.stops@.len(),
                self.children_prefix(stop_id.0@, i as int).len() == 0,
            decreases self.stops@.len() - i,
        {
            let s = &self.stops[i];
            if let Some(p) = &s.parent_station {
                if p.0 == stop_id.0 {
                    proof {
                        lemma_prefix_first(self, stop_id.0@, i as int + 1, self.stops@.len() as int);
                    }
                    return Some(s.copy());
                }
            }
            i += 1;
        }
        None
    }

    /// The level of the location `stop_id`: the first level with the level
    /// identifier of the first location with that identifier.
    pub fn stop_get_level(&self, stop_id: &StopId) -> (r: Option<Level>)
        ensures
            r == match key_position(self.stops@, stop_id.0@) {
                Some(p) => match self.stops@[p].level_id {
                    Some(l) => match key_position(self.levels@, l.0@) {
                        Some(q) => Some(self.levels@[q]),
                        None => None::<Level>,
                    },
                    None => None::<Level>,
                },
                None => None::<Level>,
            },
    {
        proof {
            lemma_key_position(self.stops@, stop_id.0@);
        }
        match find_key(&self.stops, &stop_id.0) {
            None => None,
            Some(p) => match &self.stops[p].level_id {
                None => None,
                Some(l) => {
                    proof {
                        lemma_key_position(self.levels@, l.0@);
                    }
                    match find_key(&self.levels, &l.0) {
                        Some(q) => Some(self.levels[q].copy()),
                        None => None,
                    }
                },
            },
        }
    }

    /// For the first `n` assignments of stops to location groups, in order,
    /// the group of each assignment of the stop `id` whose group exists.
    pub open spec fn groups_prefix(&self, id: Seq<char>, n: int) -> Seq<LocationGroup>
        decreases n,
    {
        if n <= 0 {
            Seq::empty()
        } else {
            let prev = self.groups_prefix(id, n - 1);
            let a = self.location_groups_stops@[n - 1];
            if a.stop_id.0@ == id {
                match key_position(self.location_groups@, a.location_group_id.0@) {
                    Some(q) => prev.push(self.location_groups@[q]),
                    None => prev,
                }
            } else {
                prev
            }
        }
    }

    /// The location groups that contain the stop `stop_id`, in the order of
    /// their assignments.
    pub fn stop_get_all_location_groups(&self, stop_id: &StopId) -> (r: Vec<LocationGroup>)
        ensures
            r@ == self.groups_prefix(stop_id.0@, self.location_groups_stops@.len() as int),
    {
        let mut out: Vec<LocationGroup> = Vec::new();
        let mut i: usize = 0;
        while i < self.location_groups_stops.len()
            invariant
                0 <= i <= self.location_groups_stops@.len(),
                out@ == self.groups_prefix(stop_id.0@, i as int),
            decreases self.location_groups_stops@.len() - i,
        {
            let a = &self.location_groups_stops[i];
            if a.stop_id.0 == stop_id.0 {
                proof {
                    lemma_key_position(self.location_groups@, a.location_group_id.0@);
                }
                match find_key(&self.location_groups, &a.location_group_id.0) {
                    Some(q) => out.push(self.location_groups[q].copy()),
                    None => {},
                }
            }
            i += 1;
        }
        out
    }

    /// The trips among the first `n` whose route is `id`.
    pub open spec fn route_trips_prefix(&self, id: Seq<char>, n: int) -> Seq<Trip>
        decreases n,
    {
        if n <= 0 {
            Seq::empty()
        } else {
            let prev = self.route_trips_prefix(id, n - 1);
            if self.trips@[n - 1].route_id.0@ == id {
                prev.push(self.trips@[n - 1])
            } else {
                prev
            }
        }
    }

    /// The trips of the route `route_id`, in table order.
    pub fn trip_get_all_from_route(&self, route_id: &RouteId) -> (r: Vec<Trip>)
        ensures
            r@ == self.route_trips_prefix(route_id.0@, self.trips@.len() as int),
    {
        let mut out: Vec<Trip> = Vec::new();
        let mut i: usize = 0;
        while i < self.trips.len()
            invariant
                0 <= i <= self.trips@.len(),
                out@ == self.route_trips_prefix(route_id.0@, i as int),
            decreases self.trips@.len() - i,
        {
            if self.trips[i].route_id.0 == route_id.0 {
                out.push(self.trips[i].copy());
            }
            i += 1;
        }
        out
    }

    /// The stop times among the first `n` whose trip is `id`.
    pub open spec fn trip_stop_times_prefix(&self, id: Seq<char>, n: int) -> Seq<StopTime>
        decreases n,
    {
        if n <= 0 {
            Seq::empty()
        } else {
            let prev = self.trip_stop_times_prefix(id, n - 1);
            if self.stop_times@[n - 1].trip_id.0@ == id {
                prev.push(self.stop_times@[n - 1])
            } else {
                prev
            }
        }
    }

    /// The stop times of the trip `trip_id`, in table order.
    pub fn stop_times_get_all_from_trip(&self, trip_id: &TripId) -> (r: Vec<StopTime>)
        ensures
            r@ == self.trip_stop_times_prefix(trip_id.0@, self.stop_times@.len() as int),
    {
        let mut out: Vec<StopTime> = Vec::new();
        let mut i: usize = 0;
        while i < self.stop_times.len()
            invariant
                0 <= i <= self.stop_times@.len(),
                out@ == self.trip_stop_times_prefix(trip_id.0@, i as int),
            decreases self.stop_times@.len() - i,
        {
            if self.stop_times[i].trip_id.0 == trip_id.0 {
                out.push(self.stop_times[i].copy());
            }
            i += 1;
        }
        out
    }

    /// For the trips of the route `id` among the first `n`, in order, their
    /// stop times.
    pub open spec fn route_stop_times_prefix(&self, id: Seq<char>, n: int) -> Seq<StopTime>
        decreases n,
    {
        if n <= 0 {
            Seq::empty()
        } else {
            let prev = self.route_stop_times_prefix(id, n - 1);
            let t = self.trips@[n - 1];
            if t.route_id.0@ == id {
                prev + self.trip_stop_times_prefix(t.trip_id.0@, self.stop_times@.len() as int)
            } else {
                prev
            }
        }
    }

    /// The stop times of the trips of the route `route_id`: trip by trip in
    /// table order, and for each trip in table order.
    pub fn stop_times_get_all_from_route(&self, route_id: &RouteId) -> (r: Vec<StopTime>)
        ensures
            r@ == self.route_stop_times_prefix(route_id.0@, self.trips@.len() as int),
    {
        let mut out: Vec<StopTime> = Vec::new();
        let mut i: usize = 0;
        while i < self.trips.len()
            invariant
                0 <= i <= self.trips@.len(),
                out@ == self.route_stop_times_prefix(route_id.0@, i as int),
            decreases self.trips@.len() - i,
        {
            let t = &self.trips[i];
            if t.route_id.0 == route_id.0 {
                let mut part = self.stop_times_get_all_from_trip(&t.trip_id);
                out.append(&mut part);
            }
            i += 1;
        }
        out
    }
}

/// Once a prefix holds a child of `id`, every longer prefix has the same
/// first child.
proof fn lemma_prefix_first(ds: &Dataset, id: Seq<char>, m: int, n: int)
    requires
        0 < m <= n <= ds.stops@.len(),
        ds.children_prefix(id, m - 1).len() == 0,
        ds.stops@[m - 1].parent_station is Some,
        ds.stops@[m - 1].parent_station.unwrap().0@ == id,
    ensures
        ds.children_prefix(id, n).len() > 0,
        ds.children_prefix(id, n)[0] == ds.stops@[m - 1],
    decreases n - m,
{
    if n > m {
        lemma_prefix_first(ds, id, m, n - 1);
    }
}

} // verus!
