//! Dataset checks on the core tables: agencies, the station hierarchy,
//! routes, trips and the ordering of stop times.
use vstd::prelude::*;

use crate::dataset::{contains_key, find_key, has_key, key_position, lemma_key_position, Dataset, Keyed};
use crate::error::{carries_payload, dataset_error, dataset_outcome, fails_with, one, reports_dataset_fault, two, DatasetFault, Error};
use crate::values::{decimal_string, decimal_text};
use crate::ids::StopId;
use crate::schemas::{LocationType, Schema};
use crate::stop::Stop;
use crate::stop_time::StopTime;

verus! {

/// Where walking up the parent stations from a location ends.
#[derive(Clone, Copy, Debug, PartialEq, Eq, Structural)]
pub enum ChainEnd {
    /// At a station.
    Station,
    /// At a parent that is not in the stops table.
    MissingParent,
    /// At a location without a parent that is not a station.
    NotStation,
    /// Not within as many steps as there are stops: the chain has a cycle.
    TooLong,
}

/// Where walking up from the location `id`, for at most `fuel` steps, ends.
pub open spec fn chain_end(stops: Seq<Stop>, id: Seq<char>, fuel: nat) -> ChainEnd
    decreases fuel,
{
    if fuel == 0 {
        ChainEnd::TooLong
    } else {
        match key_position(stops, id) {
            None => ChainEnd::MissingParent,
            Some(p) => if stops[p].location_type == Some(LocationType::Station) {
                ChainEnd::Station
            } else {
                match stops[p].parent_station {
                    None => ChainEnd::NotStation,
                    Some(q) => chain_end(stops, q.0@, (fuel - 1) as nat),
                }
            },
        }
    }
}

/// The first location with identifier `id` is a station.
pub open spec fn is_station(stops: Seq<Stop>, id: Seq<char>) -> bool {
    match key_position(stops, id) {
        Some(p) => stops[p].location_type == Some(LocationType::Station),
        None => false,
    }
}

/// `a` arrives strictly before `b`; an absent arrival time comes first.
pub open spec fn arrival_lt(a: StopTime, b: StopTime) -> bool {
    match (a.arrival_time, b.arrival_time) {
        (None, Some(_)) => true,
        (Some(x), Some(y)) => x.secs < y.secs,
        _ => false,
    }
}

/// `a` comes before `b` in the order of a trip: by arrival time, and by stop
/// sequence between equal arrival times.
pub open spec fn visits_before(a: StopTime, b: StopTime) -> bool {
    arrival_lt(a, b) || (!arrival_lt(b, a) && a.stop_sequence < b.stop_sequence)
}

/// Two stop times of one trip have distinct stop sequences; the sequence
/// increases in the order of arrival, and so does the distance travelled
/// where both give one.
pub open spec fn stop_time_pair_ok(a: StopTime, b: StopTime) -> bool {
    a.trip_id.0@ == b.trip_id.0@ ==> {
        &&& a.stop_sequence != b.stop_sequence
        &&& arrival_lt(a, b) ==> a.stop_sequence < b.stop_sequence
        &&& (a.shape_dist_traveled is Some && b.shape_dist_traveled is Some && visits_before(a, b))
            ==> a.shape_dist_traveled.unwrap().key < b.shape_dist_traveled.unwrap().key
    }
}

/// The first rule that two stop times break together.
pub open spec fn stop_time_pair_fault(a: StopTime, b: StopTime) -> Option<(DatasetFault, Seq<char>)> {
    if a.trip_id.0@ != b.trip_id.0@ {
        None
    } else if a.stop_sequence == b.stop_sequence {
        Some((DatasetFault::PrimaryKeyNotUnique, "(trip_id, stop_sequence)"@))
    } else if arrival_lt(a, b) && a.stop_sequence > b.stop_sequence {
        Some((DatasetFault::InconsistentValue, "stop_sequence"@))
    } else if a.shape_dist_traveled is Some && b.shape_dist_traveled is Some && visits_before(a, b)
        && !(a.shape_dist_traveled.unwrap().key < b.shape_dist_traveled.unwrap().key) {
        Some((DatasetFault::InconsistentValue, "shape_dist_traveled"@))
    } else {
        None
    }
}

/// The value and records that two stop times out of order are reported
/// with.
pub open spec fn stop_time_pair_payload(a: StopTime, b: StopTime) -> Option<(Seq<char>, Seq<Schema>)> {
    if a.trip_id.0@ != b.trip_id.0@ {
        None
    } else if a.stop_sequence == b.stop_sequence {
        Some((a.trip_id.0@, seq![Schema::StopTime(a), Schema::StopTime(b)]))
    } else if arrival_lt(a, b) && a.stop_sequence > b.stop_sequence {
        Some((decimal_text(b.stop_sequence as nat), seq![Schema::StopTime(b)]))
    } else if a.shape_dist_traveled is Some && b.shape_dist_traveled is Some && visits_before(a, b)
        && !(a.shape_dist_traveled.unwrap().key < b.shape_dist_traveled.unwrap().key) {
        Some((b.trip_id.0@, seq![Schema::StopTime(a), Schema::StopTime(b)]))
    } else {
        None
    }
}

/// The locations met walking up the parent stations from `id`, for at most
/// `fuel` steps.
pub open spec fn parent_chain(stops: Seq<Stop>, id: Seq<char>, fuel: nat) -> Seq<Schema>
    decreases fuel,
{
    if fuel == 0 {
        Seq::empty()
    } else {
        match key_position(stops, id) {
            None => Seq::empty(),
            Some(p) => seq![Schema::Stop(stops[p])] + if stops[p].location_type == Some(
                LocationType::Station,
            ) {
                Seq::empty()
            } else {
                match stops[p].parent_station {
                    None => Seq::empty(),
                    Some(q) => parent_chain(stops, q.0@, (fuel - 1) as nat),
                }
            },
        }
    }
}

impl Dataset {
    /// With more than one agency: each has an identifier, the identifiers
    /// are distinct, and all share the time zone of the first.
    pub open spec fn agencies_ok(&self) -> bool {
        let a = self.agencies@;
        a.len() > 1 ==> {
            &&& forall|i: int| 0 <= i < a.len() ==> (#[trigger] a[i]).agency_id is Some
            &&& forall|i: int, j: int|
                0 <= i < j < a.len() ==> (#[trigger] a[i]).key() != (#[trigger] a[j]).key()
            &&& forall|i: int|
                0 <= i < a.len() ==> (#[trigger] a[i]).agency_timezone@ == a[0].agency_timezone@
        }
    }

    /// The first rule that the `i`-th agency breaks when there are several.
    pub open spec fn agency_fault_at(&self, i: int) -> Option<(DatasetFault, Seq<char>)> {
        let a = self.agencies@;
        if a[i].agency_id is None {
            Some((DatasetFault::MissingValue, "agency_id"@))
        } else if exists|j: int| 0 <= j < i && #[trigger] a[j].key() == a[i].key() {
            Some((DatasetFault::PrimaryKeyNotUnique, "agency_id"@))
        } else if a[i].agency_timezone@ != a[0].agency_timezone@ {
            Some((DatasetFault::InconsistentValue, "agency_timezone"@))
        } else {
            None
        }
    }

    /// The fault of the first agency at or after `i` that breaks a rule.
    pub open spec fn agency_fault_from(&self, i: int) -> Option<(DatasetFault, Seq<char>)>
        decreases self.agencies@.len() - i,
    {
        if i < 0 || i >= self.agencies@.len() {
            None
        } else if self.agency_fault_at(i) is Some {
            self.agency_fault_at(i)
        } else {
            self.agency_fault_from(i + 1)
        }
    }

    /// The value and record that the `i`-th agency is reported with.
    pub open spec fn agency_payload_at(&self, i: int) -> (Seq<char>, Seq<Schema>) {
        let a = self.agencies@;
        if a[i].agency_id is None {
            (Seq::empty(), seq![Schema::Agency(a[i])])
        } else if exists|j: int| 0 <= j < i && #[trigger] a[j].key() == a[i].key() {
            (a[i].agency_id.unwrap().0@, seq![Schema::Agency(a[i])])
        } else {
            (a[i].agency_timezone@, seq![Schema::Agency(a[i])])
        }
    }

    /// The payload of the first agency at or after `i` that breaks a rule.
    pub open spec fn agency_payload_from(&self, i: int) -> Option<(Seq<char>, Seq<Schema>)>
        decreases self.agencies@.len() - i,
    {
        if i < 0 || i >= self.agencies@.len() {
            None
        } else if self.agency_fault_at(i) is Some {
            Some(self.agency_payload_at(i))
        } else {
            self.agency_payload_from(i + 1)
        }
    }

    /// The payload of the agency check.
    pub open spec fn agencies_payload(&self) -> Option<(Seq<char>, Seq<Schema>)> {
        if self.agencies@.len() > 1 {
            self.agency_payload_from(0)
        } else {
            None
        }
    }

    /// The fault of the agency check.
    pub open spec fn agencies_fault(&self) -> Option<(DatasetFault, Seq<char>)> {
        if self.agencies@.len() > 1 {
            self.agency_fault_from(0)
        } else {
            None
        }
    }

    /// Checks the agencies.
    pub fn check_agencies(&self) -> (r: Result<(), Error>)
        ensures
            dataset_outcome(r, self.agencies_ok()),
            reports_dataset_fault(r, self.agencies_fault()),
            carries_payload(r, self.agencies_payload()),
    {
        let n = self.agencies.len();
        if n <= 1 {
            return Ok(());
        }
        let mut i: usize = 0;
        while i < n
            invariant
                n == self.agencies@.len(),
                n > 1,
                0 <= i <= n,
                forall|k: int| 0 <= k < i ==> (#[trigger] self.agencies@[k]).agency_id is Some,
                forall|k: int, l: int|
                    0 <= k < l < i ==> (#[trigger] self.agencies@[k]).key() != (
                    #[trigger] self.agencies@[l]).key(),
                forall|k: int|
                    0 <= k < i ==> (#[trigger] self.agencies@[k]).agency_timezone@
                        == self.agencies@[0].agency_timezone@,
                self.agency_fault_from(0) == self.agency_fault_from(i as int),
                self.agency_payload_from(0) == self.agency_payload_from(i as int),
            decreases n - i,
        {
            let a = &self.agencies[i];
            match &a.agency_id {
                None => {
                    return Err(
                        dataset_error(
                            DatasetFault::MissingValue,
                            "agency_id",
                            String::new(),
                            "cannot be empty when there are multiple agencies",
                            one(Schema::Agency(a.copy())),
                        ),
                    );
                },
                Some(id) => {
                    let mut j: usize = 0;
                    while j < i
                        invariant
                            0 <= j <= i < n,
                            n == self.agencies@.len(),
                            self.agencies@[i as int].key() == Some(id.0@),
                            *a == self.agencies@[i as int],
                            n > 1,
                            self.agency_fault_from(0) == self.agency_fault_from(i as int),
                            self.agency_payload_from(0) == self.agency_payload_from(i as int),
                            forall|l: int|
                                0 <= l < j ==> (#[trigger] self.agencies@[l]).key() != Some(id.0@),
                        decreases i - j,
                    {
                        if let Some(other) = &self.agencies[j].agency_id {
                            if other.same(id) {
                                assert(self.agencies@[j as int].key() == self.agencies@[i as int].key());
                                assert(self.agency_fault_at(i as int) is Some);
                                assert(self.agency_payload_at(i as int).0 == id.0@);
                                return Err(
                                    dataset_error(
                                        DatasetFault::PrimaryKeyNotUnique,
                                        "agency_id",
                                        id.0.clone(),
                                        "agency_id",
                                        one(Schema::Agency(a.copy())),
                                    ),
                                );
                            }
                        }
                        j += 1;
                    }
                },
            }
            if !(a.agency_timezone == self.agencies[0].agency_timezone) {
                return Err(
                    dataset_error(
                        DatasetFault::InconsistentValue,
                        "agency_timezone",
                        a.agency_timezone.clone(),
                        "must be the same for all agencies",
                        one(Schema::Agency(a.copy())),
                    ),
                );
            }
            i += 1;
        }
        Ok(())
    }

    /// The rules of the hierarchy for one location: its parent chain ends at
    /// a station within as many steps as there are stops; its level exists;
    /// a stop or platform with a parent has a station as parent.
    pub open spec fn stop_ok(&self, s: Stop) -> bool {
        &&& s.parent_station is Some ==> chain_end(
            self.stops@,
            s.parent_station.unwrap().0@,
            self.stops@.len() as nat,
        ) == ChainEnd::Station
        &&& s.level_id is Some ==> has_key(self.levels@, s.level_id.unwrap().0@)
        &&& (s.kind() == LocationType::StopOrPlatform && s.parent_station is Some) ==> is_station(
            self.stops@,
            s.parent_station.unwrap().0@,
        )
    }

    /// The first rule that one record of stops breaks.
    pub open spec fn stop_record_fault(&self, r: Stop) -> Option<(DatasetFault, Seq<char>)> {
        if r.parent_station is Some && chain_end(self.stops@, r.parent_station.unwrap().0@, self.stops@.len() as nat) == ChainEnd::MissingParent {
            Some((DatasetFault::ForeignKeyNotFound, "parent_station"@))
        } else if r.parent_station is Some && chain_end(self.stops@, r.parent_station.unwrap().0@, self.stops@.len() as nat) == ChainEnd::NotStation {
            Some((DatasetFault::InconsistentValue, "location_type"@))
        } else if r.parent_station is Some && chain_end(self.stops@, r.parent_station.unwrap().0@, self.stops@.len() as nat) == ChainEnd::TooLong {
            Some((DatasetFault::InconsistentValue, "parent_station"@))
        } else if r.level_id is Some && !has_key(self.levels@, r.level_id.unwrap().0@) {
            Some((DatasetFault::ForeignKeyNotFound, "level_id"@))
        } else if r.kind() == LocationType::StopOrPlatform && r.parent_station is Some && !is_station(self.stops@, r.parent_station.unwrap().0@) {
            Some((DatasetFault::ForeignKeyNotFound, "parent_station"@))
        } else {
            None
        }
    }

    /// The fault of the first record of stops at or after `i` that breaks
    /// a rule.
    pub open spec fn stop_fault_from(&self, i: int) -> Option<(DatasetFault, Seq<char>)>
        decreases self.stops@.len() - i,
    {
        if i < 0 || i >= self.stops@.len() {
            None
        } else if self.stop_record_fault(self.stops@[i]) is Some {
            self.stop_record_fault(self.stops@[i])
        } else {
            self.stop_fault_from(i + 1)
        }
    }

    /// The value and records that the first rule broken by one record of
    /// stops is reported with.
    pub open spec fn stop_record_payload(&self, r: Stop) -> Option<(Seq<char>, Seq<Schema>)> {
        if r.parent_station is Some && chain_end(self.stops@, r.parent_station.unwrap().0@, self.stops@.len() as nat) == ChainEnd::MissingParent {
            Some((r.parent_station.unwrap().0@, seq![Schema::Stop(r)] + parent_chain(self.stops@, r.parent_station.unwrap().0@, self.stops@.len() as nat)))
        } else if r.parent_station is Some && chain_end(self.stops@, r.parent_station.unwrap().0@, self.stops@.len() as nat) == ChainEnd::NotStation {
            Some((r.parent_station.unwrap().0@, seq![Schema::Stop(r)] + parent_chain(self.stops@, r.parent_station.unwrap().0@, self.stops@.len() as nat)))
        } else if r.parent_station is Some && chain_end(self.stops@, r.parent_station.unwrap().0@, self.stops@.len() as nat) == ChainEnd::TooLong {
            Some((r.parent_station.unwrap().0@, seq![Schema::Stop(r)] + parent_chain(self.stops@, r.parent_station.unwrap().0@, self.stops@.len() as nat)))
        } else if r.level_id is Some && !has_key(self.levels@, r.level_id.unwrap().0@) {
            Some((r.level_id.unwrap().0@, seq![Schema::Stop(r)]))
        } else if r.kind() == LocationType::StopOrPlatform && r.parent_station is Some && !is_station(self.stops@, r.parent_station.unwrap().0@) {
            Some((r.parent_station.unwrap().0@, seq![Schema::Stop(r)]))
        } else {
            None
        }
    }

    /// The payload of the first record of stops at or after `i` that
    /// breaks a rule.
    pub open spec fn stop_payload_from(&self, i: int) -> Option<(Seq<char>, Seq<Schema>)>
        decreases self.stops@.len() - i,
    {
        if i < 0 || i >= self.stops@.len() {
            None
        } else if self.stop_record_fault(self.stops@[i]) is Some {
            self.stop_record_payload(self.stops@[i])
        } else {
            self.stop_payload_from(i + 1)
        }
    }

    /// Every location obeys the rules of the hierarchy.
    pub open spec fn stops_ok(&self) -> bool {
        forall|i: int| 0 <= i < self.stops@.len() ==> self.stop_ok(#[trigger] self.stops@[i])
    }

    /// Walks up the parent stations from `start`, for at most as many steps
    /// as there are stops.
    pub fn walk_to_station(&self, start: &StopId) -> (r: ChainEnd)
        ensures
            r == chain_end(self.stops@, start.0@, self.stops@.len() as nat),
    {
        let mut cur: String = start.0.clone();
        let mut fuel: usize = self.stops.len();
        loop
            invariant
                chain_end(self.stops@, start.0@, self.stops@.len() as nat) == chain_end(
                    self.stops@,
                    cur@,
                    fuel as nat,
                ),
            decreases fuel,
        {
            if fuel == 0 {
                return ChainEnd::TooLong;
            }
            proof {
                lemma_key_position(self.stops@, cur@);
            }
            match find_key(&self.stops, &cur) {
                None => {
                    return ChainEnd::MissingParent;
                },
                Some(p) => {
                    let st = &self.stops[p];
                    if st.location_type == Some(LocationType::Station) {
                        return ChainEnd::Station;
                    }
                    match &st.parent_station {
                        None => {
                            return ChainEnd::NotStation;
                        },
                        Some(q) => {
                            cur = q.0.clone();
                            fuel = fuel - 1;
                        },
                    }
                },
            }
        }
    }

    /// The location `stop` followed by the locations met walking up its
    /// parent stations from `start`, for at most as many steps as there are
    /// stops.
    pub fn collect_parent_chain(&self, stop: &Stop, start: &StopId) -> (r: Vec<Schema>)
        ensures
            r@ == seq![Schema::Stop(*stop)] + parent_chain(self.stops@, start.0@, self.stops@.len() as nat),
    {
        let mut out = one(Schema::Stop(stop.copy()));
        let mut cur: String = start.0.clone();
        let mut fuel: usize = self.stops.len();
        loop
            invariant
                seq![Schema::Stop(*stop)] + parent_chain(self.stops@, start.0@, self.stops@.len() as nat)
                    == out@ + parent_chain(self.stops@, cur@, fuel as nat),
            decreases fuel,
        {
            if fuel == 0 {
                proof {
                    assert(out@ + parent_chain(self.stops@, cur@, 0) =~= out@);
                }
                return out;
            }
            proof {
                lemma_key_position(self.stops@, cur@);
            }
            match find_key(&self.stops, &cur) {
                None => {
                    proof {
                        assert(out@ + parent_chain(self.stops@, cur@, fuel as nat) =~= out@);
                    }
                    return out;
                },
                Some(p) => {
                    let st = &self.stops[p];
                    let ghost before = out@;
                    out.push(Schema::Stop(st.copy()));
                    if st.location_type == Some(LocationType::Station) {
                        proof {
                            assert(before + parent_chain(self.stops@, cur@, fuel as nat) =~= out@);
                        }
                        return out;
                    }
                    match &st.parent_station {
                        None => {
                            proof {
                                assert(before + parent_chain(self.stops@, cur@, fuel as nat) =~= out@);
                            }
                            return out;
                        },
                        Some(q) => {
                            proof {
                                assert(before + parent_chain(self.stops@, cur@, fuel as nat) =~= out@
                                    + parent_chain(self.stops@, q.0@, (fuel - 1) as nat));
                            }
                            cur = q.0.clone();
                            fuel = fuel - 1;
                        },
                    }
                },
            }
        }
    }

    /// The first location with identifier `id` is a station.
    pub fn parent_is_station(&self, id: &StopId) -> (r: bool)
        ensures
            r == is_station(self.stops@, id.0@),
    {
        proof {
            lemma_key_position(self.stops@, id.0@);
        }
        match find_key(&self.stops, &id.0) {
            Some(p) => self.stops[p].location_type == Some(LocationType::Station),
            None => false,
        }
    }

    /// Checks the hierarchy of locations.
    pub fn check_stops(&self) -> (r: Result<(), Error>)
        ensures
            dataset_outcome(r, self.stops_ok()),
            reports_dataset_fault(r, self.stop_fault_from(0)),
            carries_payload(r, self.stop_payload_from(0)),
    {
        let mut i: usize = 0;
        while i < self.stops.len()
            invariant
                0 <= i <= self.stops@.len(),
                forall|k: int| 0 <= k < i ==> self.stop_ok(#[trigger] self.stops@[k]),
                self.stop_fault_from(0) == self.stop_fault_from(i as int),
                self.stop_payload_from(0) == self.stop_payload_from(i as int),
            decreases self.stops@.len() - i,
        {
            let s = &self.stops[i];
            if let Some(parent) = &s.parent_station {
                let end = self.walk_to_station(parent);
                if end == ChainEnd::MissingParent {
                    return Err(
                        dataset_error(
                            DatasetFault::ForeignKeyNotFound,
                            "parent_station",
                            parent.0.clone(),
                            "stops.txt",
                            self.collect_parent_chain(s, parent),
                        ),
                    );
                }
                if end == ChainEnd::NotStation {
                    return Err(
                        dataset_error(
                            DatasetFault::InconsistentValue,
                            "location_type",
                            parent.0.clone(),
                            "The parent station chain does not lead to a stop with location_type Station",
                            self.collect_parent_chain(s, parent),
                        ),
                    );
                }
                if end == ChainEnd::TooLong {
                    return Err(
                        dataset_error(
                            DatasetFault::InconsistentValue,
                            "parent_station",
                            parent.0.clone(),
                            "The parent station chain has a cycle",
                            self.collect_parent_chain(s, parent),
                        ),
                    );
                }
            }
            if let Some(level) = &s.level_id {
                if !contains_key(&self.levels, &level.0) {
                    return Err(
                        dataset_error(
                            DatasetFault::ForeignKeyNotFound,
                            "level_id",
                            level.0.clone(),
                            "levels.txt",
                            one(Schema::Stop(s.copy())),
                        ),
                    );
                }
            }
            if s.location_kind() == LocationType::StopOrPlatform {
                if let Some(parent) = &s.parent_station {
                    if !self.parent_is_station(parent) {
                        return Err(
                            dataset_error(
                                DatasetFault::ForeignKeyNotFound,
                                "parent_station",
                                parent.0.clone(),
                                "stops.txt",
                                one(Schema::Stop(s.copy())),
                            ),
                        );
                    }
                }
            }
            i += 1;
        }
        Ok(())
    }
}

impl Dataset {
    /// Some stop time of some trip of the route `rid` gives a pickup and
    /// drop-off window.
    pub open spec fn route_has_window(&self, rid: Seq<char>) -> bool {
        exists|t: int, k: int|
            0 <= t < self.trips@.len() && 0 <= k < self.stop_times@.len() && (
            #[trigger] self.trips@[t]).route_id.0@ == rid && (
            #[trigger] self.stop_times@[k]).trip_id.0@ == self.trips@[t].trip_id.0@
                && self.stop_times@[k].spec_has_window()
    }

    /// Some stop time of some trip of the route `rid` gives a pickup and
    /// drop-off window.
    pub fn route_with_window(&self, rid: &String) -> (r: bool)
        ensures
            r == self.route_has_window(rid@),
    {
        let mut t: usize = 0;
        while t < self.trips.len()
            invariant
                0 <= t <= self.trips@.len(),
                forall|a: int, k: int|
                    0 <= a < t && 0 <= k < self.stop_times@.len() ==> !((
                    #[trigger] self.trips@[a]).route_id.0@ == rid@ && (
                    #[trigger] self.stop_times@[k]).trip_id.0@ == self.trips@[a].trip_id.0@
                        && self.stop_times@[k].spec_has_window()),
            decreases self.trips@.len() - t,
        {
            let trip = &self.trips[t];
            if trip.route_id.0 == *rid {
                let mut k: usize = 0;
                while k < self.stop_times.len()
                    invariant
                        0 <= t < self.trips@.len(),
                        0 <= k <= self.stop_times@.len(),
                        self.trips@[t as int].route_id.0@ == rid@,
                        trip.trip_id.0@ == self.trips@[t as int].trip_id.0@,
                        forall|b: int|
                            0 <= b < k ==> !((#[trigger] self.stop_times@[b]).trip_id.0@
                                == self.trips@[t as int].trip_id.0@
                                && self.stop_times@[b].spec_has_window()),
                    decreases self.stop_times@.len() - k,
                {
                    let st = &self.stop_times[k];
                    if st.trip_id.0 == trip.trip_id.0 && st.has_window() {
                        assert(self.trips@[t as int].route_id.0@ == rid@
                            && self.stop_times@[k as int].trip_id.0@ == self.trips@[t as int].trip_id.0@
                            && self.stop_times@[k as int].spec_has_window());
                        return true;
                    }
                    k += 1;
                }
            }
            t += 1;
        }
        false
    }

    /// The rules for one route: a known agency when there are several; no
    /// window on its stop times when it is continuous; no network of its own
    /// when routes are assigned to networks by table.
    pub open spec fn route_ok(&self, r: crate::route::Route) -> bool {
        &&& (r.agency_id is Some && self.agencies@.len() > 1) ==> has_key(
            self.agencies@,
            r.agency_id.unwrap().0@,
        )
        &&& r.spec_is_continuous() ==> !self.route_has_window(r.route_id.0@)
        &&& r.network_id is Some ==> self.routes_networks@.len() == 0
    }

    /// The first rule that one record of routes breaks.
    pub open spec fn route_record_fault(&self, r: crate::route::Route) -> Option<(DatasetFault, Seq<char>)> {
        if r.agency_id is Some && self.agencies@.len() > 1 && !has_key(self.agencies@, r.agency_id.unwrap().0@) {
            Some((DatasetFault::ForeignKeyNotFound, "agency_id"@))
        } else if r.spec_is_continuous() && self.route_has_window(r.route_id.0@) {
            Some((DatasetFault::InconsistentValue, "continuous_pickup or continuous_drop_off"@))
        } else if r.network_id is Some && self.routes_networks@.len() > 0 {
            Some((DatasetFault::InconsistentValue, "network_id"@))
        } else {
            None
        }
    }

    /// The fault of the first record of routes at or after `i` that breaks
    /// a rule.
    pub open spec fn route_fault_from(&self, i: int) -> Option<(DatasetFault, Seq<char>)>
        decreases self.routes@.len() - i,
    {
        if i < 0 || i >= self.routes@.len() {
            None
        } else if self.route_record_fault(self.routes@[i]) is Some {
            self.route_record_fault(self.routes@[i])
        } else {
            self.route_fault_from(i + 1)
        }
    }

    /// The value and records that the first rule broken by one record of
    /// routes is reported with.
    pub open spec fn route_record_payload(&self, r: crate::route::Route) -> Option<(Seq<char>, Seq<Schema>)> {
        if r.agency_id is Some && self.agencies@.len() > 1 && !has_key(self.agencies@, r.agency_id.unwrap().0@) {
            Some((r.agency_id.unwrap().0@, seq![Schema::Route(r)]))
        } else if r.spec_is_continuous() && self.route_has_window(r.route_id.0@) {
            Some((r.route_id.0@, seq![Schema::Route(r)]))
        } else if r.network_id is Some && self.routes_networks@.len() > 0 {
            Some((r.route_id.0@, seq![Schema::Route(r)]))
        } else {
            None
        }
    }

    /// The payload of the first record of routes at or after `i` that
    /// breaks a rule.
    pub open spec fn route_payload_from(&self, i: int) -> Option<(Seq<char>, Seq<Schema>)>
        decreases self.routes@.len() - i,
    {
        if i < 0 || i >= self.routes@.len() {
            None
        } else if self.route_record_fault(self.routes@[i]) is Some {
            self.route_record_payload(self.routes@[i])
        } else {
            self.route_payload_from(i + 1)
        }
    }

    /// Every route obeys its rules.
    pub open spec fn routes_ok(&self) -> bool {
        forall|i: int| 0 <= i < self.routes@.len() ==> self.route_ok(#[trigger] self.routes@[i])
    }

    /// Checks the routes.
    pub fn check_routes(&self) -> (r: Result<(), Error>)
        ensures
            dataset_outcome(r, self.routes_ok()),
            reports_dataset_fault(r, self.route_fault_from(0)),
            carries_payload(r, self.route_payload_from(0)),
    {
        let mut i: usize = 0;
        while i < self.routes.len()
            invariant
                0 <= i <= self.routes@.len(),
                forall|k: int| 0 <= k < i ==> self.route_ok(#[trigger] self.routes@[k]),
                self.route_fault_from(0) == self.route_fault_from(i as int),
                self.route_payload_from(0) == self.route_payload_from(i as int),
            decreases self.routes@.len() - i,
        {
            let route = &self.routes[i];
            if let Some(aid) = &route.agency_id {
                if self.agencies.len() > 1 && !contains_key(&self.agencies, &aid.0) {
                    return Err(
                        dataset_error(
                            DatasetFault::ForeignKeyNotFound,
                            "agency_id",
                            aid.0.clone(),
                            "agencies.txt",
                            one(Schema::Route(route.copy())),
                        ),
                    );
                }
            }
            if route.is_continuous() && self.route_with_window(&route.route_id.0) {
                return Err(
                    dataset_error(
                        DatasetFault::InconsistentValue,
                        "continuous_pickup or continuous_drop_off",
                        route.route_id.0.clone(),
                        "cannot be defined because at least one stop_time of the route has start_pickup_drop_off_window or end_pickup_drop_off_window",
                        one(Schema::Route(route.copy())),
                    ),
                );
            }
            if route.network_id.is_some() && self.routes_networks.len() > 0 {
                return Err(
                    dataset_error(
                        DatasetFault::InconsistentValue,
                        "network_id",
                        route.route_id.0.clone(),
                        "cannot be defined because routes_networks.txt is present",
                        one(Schema::Route(route.copy())),
                    ),
                );
            }
            i += 1;
        }
        Ok(())
    }

    /// Some route is continuous or some stop time gives a window.
    pub open spec fn spec_any_continuous(&self) -> bool {
        (exists|i: int| 0 <= i < self.routes@.len() && (#[trigger] self.routes@[i]).spec_is_continuous())
            || (exists|i: int|
            0 <= i < self.stop_times@.len() && (#[trigger] self.stop_times@[i]).spec_has_window())
    }

    /// Some route is continuous or some stop time gives a window.
    pub fn any_continuous(&self) -> (r: bool)
        ensures
            r == self.spec_any_continuous(),
    {
        let mut i: usize = 0;
        while i < self.routes.len()
            invariant
                0 <= i <= self.routes@.len(),
                forall|k: int| 0 <= k < i ==> !(#[trigger] self.routes@[k]).spec_is_continuous(),
            decreases self.routes@.len() - i,
        {
            if self.routes[i].is_continuous() {
                return true;
            }
            i += 1;
        }
        let mut j: usize = 0;
        while j < self.stop_times.len()
            invariant
                0 <= j <= self.stop_times@.len(),
                forall|k: int| 0 <= k < self.routes@.len() ==> !(#[trigger] self.routes@[k]).spec_is_continuous(),
                forall|k: int| 0 <= k < j ==> !(#[trigger] self.stop_times@[k]).spec_has_window(),
            decreases self.stop_times@.len() - j,
        {
            if self.stop_times[j].has_window() {
                return true;
            }
            j += 1;
        }
        false
    }

    /// The service `k` is in the calendar or in the calendar dates.
    pub open spec fn has_service(&self, k: Seq<char>) -> bool {
        has_key(self.calendar@, k) || has_key(self.calendar_dates@, k)
    }

    /// The service `k` is in the calendar or in the calendar dates.
    pub fn service_exists(&self, k: &String) -> (r: bool)
        ensures
            r == self.has_service(k@),
    {
        contains_key(&self.calendar, k) || contains_key(&self.calendar_dates, k)
    }

    /// The rules for one trip: a shape when anything is continuous, a known
    /// route and a known service.
    pub open spec fn trip_ok(&self, t: crate::trip::Trip) -> bool {
        &&& t.shape_id is None ==> !self.spec_any_continuous()
        &&& has_key(self.routes@, t.route_id.0@)
        &&& self.has_service(t.service_id.0@)
    }

    /// The first rule that one record of trips breaks.
    pub open spec fn trip_record_fault(&self, r: crate::trip::Trip) -> Option<(DatasetFault, Seq<char>)> {
        if r.shape_id is None && self.spec_any_continuous() {
            Some((DatasetFault::MissingValue, "shape_id"@))
        } else if !has_key(self.routes@, r.route_id.0@) {
            Some((DatasetFault::ForeignKeyNotFound, "route_id"@))
        } else if !self.has_service(r.service_id.0@) {
            Some((DatasetFault::ForeignKeyNotFound, "service_id"@))
        } else {
            None
        }
    }

    /// The fault of the first record of trips at or after `i` that breaks
    /// a rule.
    pub open spec fn trip_fault_from(&self, i: int) -> Option<(DatasetFault, Seq<char>)>
        decreases self.trips@.len() - i,
    {
        if i < 0 || i >= self.trips@.len() {
            None
        } else if self.trip_record_fault(self.trips@[i]) is Some {
            self.trip_record_fault(self.trips@[i])
        } else {
            self.trip_fault_from(i + 1)
        }
    }

    /// The value and records that the first rule broken by one record of
    /// trips is reported with.
    pub open spec fn trip_record_payload(&self, r: crate::trip::Trip) -> Option<(Seq<char>, Seq<Schema>)> {
        if r.shape_id is None && self.spec_any_continuous() {
            Some((Seq::empty(), seq![Schema::Trip(r)]))
        } else if !has_key(self.routes@, r.route_id.0@) {
            Some((r.route_id.0@, seq![Schema::Trip(r)]))
        } else if !self.has_service(r.service_id.0@) {
            Some((r.service_id.0@, seq![Schema::Trip(r)]))
        } else {
            None
        }
    }

    /// The payload of the first record of trips at or after `i` that
    /// breaks a rule.
    pub open spec fn trip_payload_from(&self, i: int) -> Option<(Seq<char>, Seq<Schema>)>
        decreases self.trips@.len() - i,
    {
        if i < 0 || i >= self.trips@.len() {
            None
        } else if self.trip_record_fault(self.trips@[i]) is Some {
            self.trip_record_payload(self.trips@[i])
        } else {
            self.trip_payload_from(i + 1)
        }
    }

    /// Every trip obeys its rules.
    pub open spec fn trips_ok(&self) -> bool {
        forall|i: int| 0 <= i < self.trips@.len() ==> self.trip_ok(#[trigger] self.trips@[i])
    }

    /// Checks the trips.
    pub fn check_trips(&self) -> (r: Result<(), Error>)
        ensures
            dataset_outcome(r, self.trips_ok()),
            reports_dataset_fault(r, self.trip_fault_from(0)),
            carries_payload(r, self.trip_payload_from(0)),
    {
        let continuous = self.any_continuous();
        let mut i: usize = 0;
        while i < self.trips.len()
            invariant
                0 <= i <= self.trips@.len(),
                continuous == self.spec_any_continuous(),
                forall|k: int| 0 <= k < i ==> self.trip_ok(#[trigger] self.trips@[k]),
                self.trip_fault_from(0) == self.trip_fault_from(i as int),
                self.trip_payload_from(0) == self.trip_payload_from(i as int),
            decreases self.trips@.len() - i,
        {
            let trip = &self.trips[i];
            if trip.shape_id.is_none() && continuous {
                return Err(
                    dataset_error(
                        DatasetFault::MissingValue,
                        "shape_id",
                        trip.trip_id.0.clone(),
                        "the trip has a continuous pickup or drop-off behavior defined either in routes.txt or in stop_times.txt",
                        one(Schema::Trip(trip.copy())),
                    ),
                );
            }
            if !contains_key(&self.routes, &trip.route_id.0) {
                return Err(
                    dataset_error(
                        DatasetFault::ForeignKeyNotFound,
                        "route_id",
                        trip.route_id.0.clone(),
                        "routes.txt",
                        one(Schema::Trip(trip.copy())),
                    ),
                );
            }
            if !self.service_exists(&trip.service_id.0) {
                return Err(
                    dataset_error(
                        DatasetFault::ForeignKeyNotFound,
                        "service_id",
                        trip.service_id.0.clone(),
                        "calendar.txt or calendar_dates.txt",
                        one(Schema::Trip(trip.copy())),
                    ),
                );
            }
            i += 1;
        }
        Ok(())
    }

    /// One stop time refers to a known trip and, if it names one, a known stop.
    pub open spec fn stop_time_refs_ok(&self, s: StopTime) -> bool {
        &&& has_key(self.trips@, s.trip_id.0@)
        &&& s.stop_id is Some ==> has_key(self.stops@, s.stop_id.unwrap().0@)
    }

    /// The first rule that one record of stop_times breaks.
    pub open spec fn stop_time_refs_record_fault(&self, r: StopTime) -> Option<(DatasetFault, Seq<char>)> {
        if !has_key(self.trips@, r.trip_id.0@) {
            Some((DatasetFault::ForeignKeyNotFound, "trip_id"@))
        } else if r.stop_id is Some && !has_key(self.stops@, r.stop_id.unwrap().0@) {
            Some((DatasetFault::ForeignKeyNotFound, "stop_id"@))
        } else {
            None
        }
    }

    /// The fault of the first record of stop_times at or after `i` that breaks
    /// a rule.
    pub open spec fn stop_time_refs_fault_from(&self, i: int) -> Option<(DatasetFault, Seq<char>)>
        decreases self.stop_times@.len() - i,
    {
        if i < 0 || i >= self.stop_times@.len() {
            None
        } else if self.stop_time_refs_record_fault(self.stop_times@[i]) is Some {
            self.stop_time_refs_record_fault(self.stop_times@[i])
        } else {
            self.stop_time_refs_fault_from(i + 1)
        }
    }

    /// The value and records that the first rule broken by one record of
    /// stop_times is reported with.
    pub open spec fn stop_time_refs_record_payload(&self, r: StopTime) -> Option<(Seq<char>, Seq<Schema>)> {
        if !has_key(self.trips@, r.trip_id.0@) {
            Some((r.trip_id.0@, seq![Schema::StopTime(r)]))
        } else if r.stop_id is Some && !has_key(self.stops@, r.stop_id.unwrap().0@) {
            Some((r.stop_id.unwrap().0@, seq![Schema::StopTime(r)]))
        } else {
            None
        }
    }

    /// The payload of the first record of stop_times at or after `i` that
    /// breaks a rule.
    pub open spec fn stop_time_refs_payload_from(&self, i: int) -> Option<(Seq<char>, Seq<Schema>)>
        decreases self.stop_times@.len() - i,
    {
        if i < 0 || i >= self.stop_times@.len() {
            None
        } else if self.stop_time_refs_record_fault(self.stop_times@[i]) is Some {
            self.stop_time_refs_record_payload(self.stop_times@[i])
        } else {
            self.stop_time_refs_payload_from(i + 1)
        }
    }

    /// Every stop time refers to known records, and along every trip the
    /// stop sequence strictly increases in the order of arrival, as does the
    /// distance travelled where given.
    pub open spec fn stop_times_ok(&self) -> bool {
        &&& forall|i: int|
            0 <= i < self.stop_times@.len() ==> self.stop_time_refs_ok(#[trigger] self.stop_times@[i])
        &&& forall|i: int, j: int|
            0 <= i < self.stop_times@.len() && 0 <= j < self.stop_times@.len() && i != j
                ==> stop_time_pair_ok(#[trigger] self.stop_times@[i], #[trigger] self.stop_times@[j])
    }

    /// The fault of the first pair of distinct stop times that break a rule
    /// together, pairs taken from `(a, b)` on by first and then second
    /// position.
    pub open spec fn stop_time_pairs_fault_from(&self, a: int, b: int) -> Option<(DatasetFault, Seq<char>)>
        decreases self.stop_times@.len() - a, self.stop_times@.len() - b,
    {
        let n = self.stop_times@.len();
        if a < 0 || a >= n {
            None
        } else if b < 0 || b >= n {
            self.stop_time_pairs_fault_from(a + 1, 0)
        } else if a != b && stop_time_pair_fault(self.stop_times@[a], self.stop_times@[b]) is Some {
            stop_time_pair_fault(self.stop_times@[a], self.stop_times@[b])
        } else {
            self.stop_time_pairs_fault_from(a, b + 1)
        }
    }

    /// The payload of the first pair of distinct stop times that break a rule
    /// together, in the order of `stop_time_pairs_fault_from`.
    pub open spec fn stop_time_pairs_payload_from(&self, a: int, b: int) -> Option<(Seq<char>, Seq<Schema>)>
        decreases self.stop_times@.len() - a, self.stop_times@.len() - b,
    {
        let n = self.stop_times@.len();
        if a < 0 || a >= n {
            None
        } else if b < 0 || b >= n {
            self.stop_time_pairs_payload_from(a + 1, 0)
        } else if a != b && stop_time_pair_fault(self.stop_times@[a], self.stop_times@[b]) is Some {
            stop_time_pair_payload(self.stop_times@[a], self.stop_times@[b])
        } else {
            self.stop_time_pairs_payload_from(a, b + 1)
        }
    }

    /// The payload of the stop time check.
    pub open spec fn stop_times_payload(&self) -> Option<(Seq<char>, Seq<Schema>)> {
        if self.stop_time_refs_fault_from(0) is Some {
            self.stop_time_refs_payload_from(0)
        } else {
            self.stop_time_pairs_payload_from(0, 0)
        }
    }

    /// The fault of the stop time check: an unresolved reference first, then
    /// a pair out of order.
    pub open spec fn stop_times_fault(&self) -> Option<(DatasetFault, Seq<char>)> {
        if self.stop_time_refs_fault_from(0) is Some {
            self.stop_time_refs_fault_from(0)
        } else {
            self.stop_time_pairs_fault_from(0, 0)
        }
    }

    /// Checks the stop times.
    pub fn check_stop_times(&self) -> (r: Result<(), Error>)
        ensures
            dataset_outcome(r, self.stop_times_ok()),
            reports_dataset_fault(r, self.stop_times_fault()),
            carries_payload(r, self.stop_times_payload()),
            self.stop_time_refs_fault_from(0) is Some ==> reports_dataset_fault(
                r,
                self.stop_time_refs_fault_from(0),
            ),
    {
        let n = self.stop_times.len();
        let mut i: usize = 0;
        while i < n
            invariant
                n == self.stop_times@.len(),
                0 <= i <= n,
                forall|k: int| 0 <= k < i ==> self.stop_time_refs_ok(#[trigger] self.stop_times@[k]),
                self.stop_time_refs_fault_from(0) == self.stop_time_refs_fault_from(i as int),
                self.stop_time_refs_payload_from(0) == self.stop_time_refs_payload_from(i as int),
            decreases n - i,
        {
            let st = &self.stop_times[i];
            if !contains_key(&self.trips, &st.trip_id.0) {
                return Err(
                    dataset_error(
                        DatasetFault::ForeignKeyNotFound,
                        "trip_id",
                        st.trip_id.0.clone(),
                        "trips.txt",
                        one(Schema::StopTime(st.copy())),
                    ),
                );
            }
            if let Some(sid) = &st.stop_id {
                if !contains_key(&self.stops, &sid.0) {
                    return Err(
                        dataset_error(
                            DatasetFault::ForeignKeyNotFound,
                            "stop_id",
                            sid.0.clone(),
                            "stops.txt",
                            one(Schema::StopTime(st.copy())),
                        ),
                    );
                }
            }
            i += 1;
        }
        let mut a: usize = 0;
        while a < n
            invariant
                n == self.stop_times@.len(),
                0 <= a <= n,
                forall|k: int| 0 <= k < n ==> self.stop_time_refs_ok(#[trigger] self.stop_times@[k]),
                self.stop_time_refs_fault_from(0) is None,
                self.stop_time_pairs_fault_from(0, 0) == self.stop_time_pairs_fault_from(a as int, 0),
                self.stop_time_pairs_payload_from(0, 0) == self.stop_time_pairs_payload_from(a as int, 0),
                forall|x: int, y: int|
                    0 <= x < a && 0 <= y < n && x != y ==> stop_time_pair_ok(
                        #[trigger] self.stop_times@[x],
                        #[trigger] self.stop_times@[y],
                    ),
            decreases n - a,
        {
            let mut b: usize = 0;
            while b < n
                invariant
                    n == self.stop_times@.len(),
                    0 <= a < n,
                    0 <= b <= n,
                    forall|k: int| 0 <= k < n ==> self.stop_time_refs_ok(#[trigger] self.stop_times@[k]),
                    self.stop_time_refs_fault_from(0) is None,
                    self.stop_time_pairs_fault_from(0, 0) == self.stop_time_pairs_fault_from(
                        a as int,
                        b as int,
                    ),
                    self.stop_time_pairs_payload_from(0, 0) == self.stop_time_pairs_payload_from(
                        a as int,
                        b as int,
                    ),
                    forall|x: int, y: int|
                        0 <= x < a && 0 <= y < n && x != y ==> stop_time_pair_ok(
                            #[trigger] self.stop_times@[x],
                            #[trigger] self.stop_times@[y],
                        ),
                    forall|y: int|
                        0 <= y < b && a != y ==> stop_time_pair_ok(
                            self.stop_times@[a as int],
                            #[trigger] self.stop_times@[y],
                        ),
                decreases n - b,
            {
                if a != b {
                    let r = check_stop_time_pair(&self.stop_times[a], &self.stop_times[b]);
                    if r.is_err() {
                        return r;
                    }
                }
                b += 1;
            }
            a += 1;
        }
        Ok(())
    }
}

/// Checks two stop times of the dataset against each other.
fn check_stop_time_pair(x: &StopTime, y: &StopTime) -> (r: Result<(), Error>)
    ensures
        dataset_outcome(r, stop_time_pair_ok(*x, *y)),
        reports_dataset_fault(r, stop_time_pair_fault(*x, *y)),
        carries_payload(r, stop_time_pair_payload(*x, *y)),
{
    if !(x.trip_id.0 == y.trip_id.0) {
        return Ok(());
    }
    if x.stop_sequence == y.stop_sequence {
        return Err(
            dataset_error(
                DatasetFault::PrimaryKeyNotUnique,
                "(trip_id, stop_sequence)",
                x.trip_id.0.clone(),
                "two stop times of the trip share a stop_sequence",
                two(Schema::StopTime(x.copy()), Schema::StopTime(y.copy())),
            ),
        );
    }
    let x_first = match (&x.arrival_time, &y.arrival_time) {
        (None, Some(_)) => true,
        (Some(p), Some(q)) => p.lt(q),
        _ => false,
    };
    let y_first = match (&y.arrival_time, &x.arrival_time) {
        (None, Some(_)) => true,
        (Some(p), Some(q)) => p.lt(q),
        _ => false,
    };
    if x_first && x.stop_sequence > y.stop_sequence {
        return Err(
            dataset_error(
                DatasetFault::InconsistentValue,
                "stop_sequence",
                decimal_string(y.stop_sequence),
                "must increase along the trip",
                one(Schema::StopTime(y.copy())),
            ),
        );
    }
    let before = x_first || (!y_first && x.stop_sequence < y.stop_sequence);
    match (&x.shape_dist_traveled, &y.shape_dist_traveled) {
        (Some(p), Some(q)) => {
            if before && !p.lt(q) {
                return Err(
                    dataset_error(
                        DatasetFault::InconsistentValue,
                        "shape_dist_traveled",
                        y.trip_id.0.clone(),
                        "must increase along the trip",
                        two(Schema::StopTime(x.copy()), Schema::StopTime(y.copy())),
                    ),
                );
            }
        },
        _ => {},
    }
    Ok(())
}

} // verus!
