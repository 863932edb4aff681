//! Dataset checks on the tables that link records together: calendar
//! coverage, the fare graph, areas and networks, shapes, frequencies,
//! transfers, pathways, location groups, booking rules and attributions.
use vstd::prelude::*;
use vstd::string::*;

use crate::checks_core::is_station;
use crate::dataset::{contains_key, has_key, Dataset};
use crate::error::{carries_payload, dataset_error, dataset_outcome, fails_with, one, reports_dataset_fault, two, DatasetFault, Error};
use crate::fares::{FareLegRule, FareProduct, FareRule, FareTransferRule, Timeframe};
use crate::booking_rule::BookingRule;
use crate::feed_info::Attribution;
use crate::schemas::Schema;
use crate::values::{decimal_text, push_decimal, push_two_digits, two_digit_text, NaiveServiceTime};
use crate::shape::{Frequency, Shape};
use crate::station::{LocationGroupStop, Pathway, PathwayMode, RouteNetwork, StopArea};
use crate::transfer::Transfer;

verus! {

/// The hours of a time, with at least two digits.
pub open spec fn hour_text(h: nat) -> Seq<char> {
    if h < 10 {
        seq!['0'] + decimal_text(h)
    } else {
        decimal_text(h)
    }
}

/// The `HH:MM:SS` label of a time.
pub open spec fn time_label(t: NaiveServiceTime) -> Seq<char> {
    hour_text((t.secs / 3600) as nat) + seq![':'] + two_digit_text(((t.secs / 60) % 60) as int) + seq![':']
        + two_digit_text((t.secs % 60) as int)
}

/// The details of an overlap: the group, the service and both windows.
pub open spec fn overlap_details(a: Timeframe, b: Timeframe) -> Seq<char> {
    "timeframe_group_id "@ + a.timeframe_group_id.0@ + ", service_id "@ + a.service_id.0@
        + ": "@ + time_label(a.start_time.unwrap()) + "-"@ + time_label(a.end_time.unwrap())
        + " and "@ + time_label(b.start_time.unwrap()) + "-"@ + time_label(b.end_time.unwrap())
}

/// Appends the `HH:MM:SS` label of a time.
fn push_time_label(out: &mut String, t: &NaiveServiceTime)
    ensures
        final(out)@ == old(out)@ + time_label(*t),
{
    let h = t.secs / 3600;
    if h < 10 {
        out.append("0");
    }
    push_decimal(out, h);
    out.append(":");
    push_two_digits(out, (t.secs / 60) % 60);
    out.append(":");
    push_two_digits(out, t.secs % 60);
    proof {
        reveal_strlit("0");
        reveal_strlit(":");
        assert(final(out)@ =~= old(out)@ + time_label(*t));
    }
}

/// The details of an overlap between `a` and `b`, whose ends are given.
fn overlap_details_text(a: &Timeframe, b: &Timeframe) -> (r: String)
    requires
        a.start_time is Some && a.end_time is Some && b.start_time is Some && b.end_time is Some,
    ensures
        r@ == overlap_details(*a, *b),
{
    let mut out = String::from_str("timeframe_group_id ");
    out.append(a.timeframe_group_id.0.as_str());
    out.append(", service_id ");
    out.append(a.service_id.0.as_str());
    out.append(": ");
    push_time_label(&mut out, a.start_time.as_ref().unwrap());
    out.append("-");
    push_time_label(&mut out, a.end_time.as_ref().unwrap());
    out.append(" and ");
    push_time_label(&mut out, b.start_time.as_ref().unwrap());
    out.append("-");
    push_time_label(&mut out, b.end_time.as_ref().unwrap());
    proof {
        assert(out@ =~= overlap_details(*a, *b));
    }
    out
}

/// Two timeframes of one group and service have windows that overlap.
pub open spec fn timeframes_overlap(a: Timeframe, b: Timeframe) -> bool {
    &&& a.timeframe_group_id.0@ == b.timeframe_group_id.0@
    &&& a.service_id.0@ == b.service_id.0@
    &&& a.start_time is Some && a.end_time is Some && b.start_time is Some && b.end_time is Some
    &&& a.start_time.unwrap().secs < b.end_time.unwrap().secs
    &&& b.start_time.unwrap().secs < a.end_time.unwrap().secs
}

/// Along one shape, the distance travelled increases with the point
/// sequence where both points give one.
pub open spec fn shape_pair_ok(a: Shape, b: Shape) -> bool {
    (a.shape_id.0@ == b.shape_id.0@ && a.shape_dist_traveled is Some && b.shape_dist_traveled is Some
        && a.shape_pt_sequence < b.shape_pt_sequence) ==> a.shape_dist_traveled.unwrap().key
        < b.shape_dist_traveled.unwrap().key
}

fn check_timeframe_pair(a: &Timeframe, b: &Timeframe) -> (r: Result<(), Error>)
    ensures
        dataset_outcome(r, !timeframes_overlap(*a, *b)),
        fails_with(r, (DatasetFault::OverlappingIntervals, Seq::empty())),
        carries_payload(r, Some((overlap_details(*a, *b), seq![Schema::Timeframe(*a), Schema::Timeframe(*b)]))),
{
    if !(a.timeframe_group_id.0 == b.timeframe_group_id.0) || !(a.service_id.0 == b.service_id.0) {
        return Ok(());
    }
    match (&a.start_time, &a.end_time, &b.start_time, &b.end_time) {
        (Some(s1), Some(e1), Some(s2), Some(e2)) => {
            if s1.lt(e2) && s2.lt(e1) {
                return Err(
                    dataset_error(
                        DatasetFault::OverlappingIntervals,
                        "",
                        String::new(),
                        overlap_details_text(a, b).as_str(),
                        two(Schema::Timeframe(a.copy()), Schema::Timeframe(b.copy())),
                    ),
                );
            }
            Ok(())
        },
        _ => Ok(()),
    }
}

fn check_shape_pair(a: &Shape, b: &Shape) -> (r: Result<(), Error>)
    ensures
        dataset_outcome(r, shape_pair_ok(*a, *b)),
        fails_with(r, (DatasetFault::InconsistentValue, "shape_dist_traveled"@)),
        carries_payload(r, Some((b.shape_id.0@, seq![Schema::Shape(*a), Schema::Shape(*b)]))),
{
    if !(a.shape_id.0 == b.shape_id.0) || a.shape_pt_sequence >= b.shape_pt_sequence {
        return Ok(());
    }
    match (&a.shape_dist_traveled, &b.shape_dist_traveled) {
        (Some(p), Some(q)) => {
            if !p.lt(q) {
                return Err(
                    dataset_error(
                        DatasetFault::InconsistentValue,
                        "shape_dist_traveled",
                        b.shape_id.0.clone(),
                        "shape_dist_traveled does not increase along shape_pt_sequence",
                        two(Schema::Shape(a.copy()), Schema::Shape(b.copy())),
                    ),
                );
            }
            Ok(())
        },
        _ => Ok(()),
    }
}

/// With at most one agency no fare attribute breaks a rule.
proof fn lemma_fare_attribute_fault_none(ds: &Dataset, i: int)
    requires
        0 <= i <= ds.fare_attributes@.len(),
        ds.agencies@.len() <= 1,
    ensures
        ds.fare_attribute_fault_from(i) is None,
        ds.fare_attribute_payload_from(i) is None,
    decreases ds.fare_attributes@.len() - i,
{
    if i < ds.fare_attributes@.len() {
        lemma_fare_attribute_fault_none(ds, i + 1);
    }
}

/// With a weekly calendar no trip lacks dates.
proof fn lemma_calendar_trip_fault_none(ds: &Dataset, i: int)
    requires
        0 <= i <= ds.trips@.len(),
        ds.calendar@.len() > 0,
    ensures
        ds.calendar_trip_fault_from(i) is None,
        ds.calendar_trip_payload_from(i) is None,
    decreases ds.trips@.len() - i,
{
    if i < ds.trips@.len() {
        lemma_calendar_trip_fault_none(ds, i + 1);
    }
}

impl Dataset {
    /// Some stop lies in the fare zone `z`.
    pub open spec fn has_zone(&self, z: Seq<char>) -> bool {
        exists|i: int|
            0 <= i < self.stops@.len() && (#[trigger] self.stops@[i]).zone_id is Some
                && self.stops@[i].zone_id.unwrap()@ == z
    }

    /// Some stop lies in the fare zone `z`.
    pub fn zone_exists(&self, z: &String) -> (r: bool)
        ensures
            r == self.has_zone(z@),
    {
        let mut i: usize = 0;
        while i < self.stops.len()
            invariant
                0 <= i <= self.stops@.len(),
                forall|k: int|
                    0 <= k < i ==> !((#[trigger] self.stops@[k]).zone_id is Some
                        && self.stops@[k].zone_id.unwrap()@ == z@),
            decreases self.stops@.len() - i,
        {
            if let Some(zone) = &self.stops[i].zone_id {
                if *zone == *z {
                    return true;
                }
            }
            i += 1;
        }
        false
    }

    /// Some route names the network `n`, or the networks table holds it.
    pub open spec fn has_network(&self, n: Seq<char>) -> bool {
        (exists|i: int|
            0 <= i < self.routes@.len() && (#[trigger] self.routes@[i]).network_id is Some
                && self.routes@[i].network_id.unwrap().0@ == n) || has_key(self.networks@, n)
    }

    /// Some route names the network `n`, or the networks table holds it.
    pub fn network_exists(&self, n: &String) -> (r: bool)
        ensures
            r == self.has_network(n@),
    {
        let mut i: usize = 0;
        while i < self.routes.len()
            invariant
                0 <= i <= self.routes@.len(),
                forall|k: int|
                    0 <= k < i ==> !((#[trigger] self.routes@[k]).network_id is Some
                        && self.routes@[k].network_id.unwrap().0@ == n@),
            decreases self.routes@.len() - i,
        {
            if let Some(net) = &self.routes[i].network_id {
                if net.0 == *n {
                    return true;
                }
            }
            i += 1;
        }
        contains_key(&self.networks, n)
    }

    /// The first rule that one record of trips breaks.
    pub open spec fn calendar_trip_record_fault(&self, r: crate::trip::Trip) -> Option<(DatasetFault, Seq<char>)> {
        if self.calendar@.len() == 0 && !has_key(self.calendar_dates@, r.service_id.0@) {
            Some((DatasetFault::ForeignKeyNotFound, "service_id"@))
        } else {
            None
        }
    }

    /// The fault of the first record of trips at or after `i` that breaks
    /// a rule.
    pub open spec fn calendar_trip_fault_from(&self, i: int) -> Option<(DatasetFault, Seq<char>)>
        decreases self.trips@.len() - i,
    {
        if i < 0 || i >= self.trips@.len() {
            None
        } else if self.calendar_trip_record_fault(self.trips@[i]) is Some {
            self.calendar_trip_record_fault(self.trips@[i])
        } else {
            self.calendar_trip_fault_from(i + 1)
        }
    }

    /// The value and records that the first rule broken by one record of
    /// trips is reported with.
    pub open spec fn calendar_trip_record_payload(&self, r: crate::trip::Trip) -> Option<(Seq<char>, Seq<Schema>)> {
        if self.calendar@.len() == 0 && !has_key(self.calendar_dates@, r.service_id.0@) {
            Some((r.service_id.0@, seq![Schema::Trip(r)]))
        } else {
            None
        }
    }

    /// The payload of the first record of trips at or after `i` that
    /// breaks a rule.
    pub open spec fn calendar_trip_payload_from(&self, i: int) -> Option<(Seq<char>, Seq<Schema>)>
        decreases self.trips@.len() - i,
    {
        if i < 0 || i >= self.trips@.len() {
            None
        } else if self.calendar_trip_record_fault(self.trips@[i]) is Some {
            self.calendar_trip_record_payload(self.trips@[i])
        } else {
            self.calendar_trip_payload_from(i + 1)
        }
    }

    /// The payload of the calendar check.
    pub open spec fn calendar_payload(&self, allow_empty: bool) -> Option<(Seq<char>, Seq<Schema>)> {
        if self.calendar@.len() == 0 && self.calendar_dates@.len() == 0 && !allow_empty {
            Some((Seq::empty(), Seq::empty()))
        } else {
            self.calendar_trip_payload_from(0)
        }
    }

    /// The fault of the calendar check: no calendar at all (unless
    /// `allow_empty`), else the first trip whose service has no dates.
    pub open spec fn calendar_fault(&self, allow_empty: bool) -> Option<(DatasetFault, Seq<char>)> {
        if self.calendar@.len() == 0 && self.calendar_dates@.len() == 0 && !allow_empty {
            Some((DatasetFault::MissingValue, "calendar.txt and calendar_dates.txt"@))
        } else {
            self.calendar_trip_fault_from(0)
        }
    }

    /// Without a weekly calendar, the calendar dates are not empty (unless
    /// `allow_empty` is set) and hold the service of every trip.
    pub open spec fn calendar_ok(&self, allow_empty: bool) -> bool {
        self.calendar@.len() == 0 ==> {
            &&& (self.calendar_dates@.len() == 0 ==> allow_empty)
            &&& forall|i: int|
                0 <= i < self.trips@.len() ==> has_key(
                    self.calendar_dates@,
                    (#[trigger] self.trips@[i]).service_id.0@,
                )
        }
    }

    /// Checks that the calendars cover the trips.
    pub fn check_calendar(&self, allow_empty: bool) -> (r: Result<(), Error>)
        ensures
            dataset_outcome(r, self.calendar_ok(allow_empty)),
            reports_dataset_fault(r, self.calendar_fault(allow_empty)),
            carries_payload(r, self.calendar_payload(allow_empty)),
    {
        if self.calendar.len() > 0 {
            proof {
                lemma_calendar_trip_fault_none(self, 0);
            }
            return Ok(());
        }
        if self.calendar_dates.len() == 0 && !allow_empty {
            return Err(
                dataset_error(
                    DatasetFault::MissingValue,
                    "calendar.txt and calendar_dates.txt",
                    String::new(),
                    "calendar.txt is empty and calendar_dates.txt does not contain any entries",
                    Vec::new(),
                ),
            );
        }
        let mut i: usize = 0;
        while i < self.trips.len()
            invariant
                self.calendar@.len() == 0,
                self.calendar_dates@.len() == 0 ==> allow_empty,
                0 <= i <= self.trips@.len(),
                forall|k: int|
                    0 <= k < i ==> has_key(
                        self.calendar_dates@,
                        (#[trigger] self.trips@[k]).service_id.0@,
                    ),
                self.calendar_trip_fault_from(0) == self.calendar_trip_fault_from(i as int),
                self.calendar_trip_payload_from(0) == self.calendar_trip_payload_from(i as int),
            decreases self.trips@.len() - i,
        {
            let trip = &self.trips[i];
            if !contains_key(&self.calendar_dates, &trip.service_id.0) {
                return Err(
                    dataset_error(
                        DatasetFault::ForeignKeyNotFound,
                        "service_id",
                        trip.service_id.0.clone(),
                        "calendar_dates.txt",
                        one(Schema::Trip(trip.copy())),
                    ),
                );
            }
            i += 1;
        }
        Ok(())
    }

    /// The first rule that one record of fare_attributes breaks.
    pub open spec fn fare_attribute_record_fault(&self, r: crate::fares::FareAttribute) -> Option<(DatasetFault, Seq<char>)> {
        if self.agencies@.len() > 1 && r.agency_id is None {
            Some((DatasetFault::MissingValue, "agency_id"@))
        } else if self.agencies@.len() > 1 && r.agency_id is Some && !has_key(self.agencies@, r.agency_id.unwrap().0@) {
            Some((DatasetFault::ForeignKeyNotFound, "agency_id"@))
        } else {
            None
        }
    }

    /// The fault of the first record of fare_attributes at or after `i` that breaks
    /// a rule.
    pub open spec fn fare_attribute_fault_from(&self, i: int) -> Option<(DatasetFault, Seq<char>)>
        decreases self.fare_attributes@.len() - i,
    {
        if i < 0 || i >= self.fare_attributes@.len() {
            None
        } else if self.fare_attribute_record_fault(self.fare_attributes@[i]) is Some {
            self.fare_attribute_record_fault(self.fare_attributes@[i])
        } else {
            self.fare_attribute_fault_from(i + 1)
        }
    }

    /// The value and records that the first rule broken by one record of
    /// fare_attributes is reported with.
    pub open spec fn fare_attribute_record_payload(&self, r: crate::fares::FareAttribute) -> Option<(Seq<char>, Seq<Schema>)> {
        if self.agencies@.len() > 1 && r.agency_id is None {
            Some((Seq::empty(), seq![Schema::FareAttribute(r)]))
        } else if self.agencies@.len() > 1 && r.agency_id is Some && !has_key(self.agencies@, r.agency_id.unwrap().0@) {
            Some((r.agency_id.unwrap().0@, seq![Schema::FareAttribute(r)]))
        } else {
            None
        }
    }

    /// The payload of the first record of fare_attributes at or after `i` that
    /// breaks a rule.
    pub open spec fn fare_attribute_payload_from(&self, i: int) -> Option<(Seq<char>, Seq<Schema>)>
        decreases self.fare_attributes@.len() - i,
    {
        if i < 0 || i >= self.fare_attributes@.len() {
            None
        } else if self.fare_attribute_record_fault(self.fare_attributes@[i]) is Some {
            self.fare_attribute_record_payload(self.fare_attributes@[i])
        } else {
            self.fare_attribute_payload_from(i + 1)
        }
    }

    /// With more than one agency, every fare attribute names a known agency.
    pub open spec fn fare_attributes_ok(&self) -> bool {
        self.agencies@.len() > 1 ==> forall|i: int|
            0 <= i < self.fare_attributes@.len() ==> {
                let f = #[trigger] self.fare_attributes@[i];
                f.agency_id is Some && has_key(self.agencies@, f.agency_id.unwrap().0@)
            }
    }

    /// Checks the agencies of the fare attributes.
    pub fn check_fare_attributes(&self) -> (r: Result<(), Error>)
        ensures
            dataset_outcome(r, self.fare_attributes_ok()),
            reports_dataset_fault(r, self.fare_attribute_fault_from(0)),
            carries_payload(r, self.fare_attribute_payload_from(0)),
    {
        if self.agencies.len() <= 1 {
            proof {
                lemma_fare_attribute_fault_none(self, 0);
            }
            return Ok(());
        }
        let mut i: usize = 0;
        while i < self.fare_attributes.len()
            invariant
                self.agencies@.len() > 1,
                0 <= i <= self.fare_attributes@.len(),
                forall|k: int|
                    0 <= k < i ==> {
                        let f = #[trigger] self.fare_attributes@[k];
                        f.agency_id is Some && has_key(self.agencies@, f.agency_id.unwrap().0@)
                    },
                self.fare_attribute_fault_from(0) == self.fare_attribute_fault_from(i as int),
                self.fare_attribute_payload_from(0) == self.fare_attribute_payload_from(i as int),
            decreases self.fare_attributes@.len() - i,
        {
            let rec = &self.fare_attributes[i];
            match &rec.agency_id {
                None => {
                    return Err(
                        dataset_error(
                            DatasetFault::MissingValue,
                            "agency_id",
                            rec.fare_id.0.clone(),
                            "is required when there are multiple agencies",
                            one(Schema::FareAttribute(rec.copy())),
                        ),
                    );
                },
                Some(aid) => {
                    if !contains_key(&self.agencies, &aid.0) {
                        return Err(
                            dataset_error(
                                DatasetFault::ForeignKeyNotFound,
                                "agency_id",
                                aid.0.clone(),
                                "agency.txt",
                                one(Schema::FareAttribute(rec.copy())),
                            ),
                        );
                    }
                },
            }
            i += 1;
        }
        Ok(())
    }

    /// No two timeframes of one group and service overlap.
    pub open spec fn timeframes_disjoint(&self) -> bool {
        forall|i: int, j: int|
            0 <= i < j < self.timeframes@.len() ==> !timeframes_overlap(
                #[trigger] self.timeframes@[i],
                #[trigger] self.timeframes@[j],
            )
    }

    /// The fault of the overlap check.
    pub open spec fn timeframes_fault(&self) -> Option<(DatasetFault, Seq<char>)> {
        if self.timeframes_disjoint() {
            None
        } else {
            Some((DatasetFault::OverlappingIntervals, Seq::empty()))
        }
    }

    /// The payload of the first overlapping pair of timeframes, pairs taken
    /// from `(a, b)` on, with `a` before `b`, by first and then second
    /// position.
    pub open spec fn timeframes_payload_from(&self, a: int, b: int) -> Option<(Seq<char>, Seq<Schema>)>
        decreases self.timeframes@.len() - a, self.timeframes@.len() - b,
    {
        let n = self.timeframes@.len();
        if a < 0 || a >= n {
            None
        } else if b < 0 || b >= n {
            self.timeframes_payload_from(a + 1, a + 2)
        } else if timeframes_overlap(self.timeframes@[a], self.timeframes@[b]) {
            Some(
                (
                    overlap_details(self.timeframes@[a], self.timeframes@[b]),
                    seq![Schema::Timeframe(self.timeframes@[a]), Schema::Timeframe(self.timeframes@[b])],
                ),
            )
        } else {
            self.timeframes_payload_from(a, b + 1)
        }
    }

    /// Checks that no two timeframes of one group and service overlap.
    pub fn check_timeframe_overlaps(&self) -> (r: Result<(), Error>)
        ensures
            dataset_outcome(r, self.timeframes_disjoint()),
            reports_dataset_fault(r, self.timeframes_fault()),
            carries_payload(r, self.timeframes_payload_from(0, 1)),
    {
        let n = self.timeframes.len();
        let mut i: usize = 0;
        while i < n
            invariant
                n == self.timeframes@.len(),
                0 <= i <= n,
                self.timeframes_payload_from(0, 1) == self.timeframes_payload_from(i as int, i + 1),
                forall|x: int, y: int|
                    0 <= x < i && x < y < n ==> !timeframes_overlap(
                        #[trigger] self.timeframes@[x],
                        #[trigger] self.timeframes@[y],
                    ),
            decreases n - i,
        {
            let mut j: usize = i + 1;
            while j < n
                invariant
                    n == self.timeframes@.len(),
                    0 <= i < n,
                    i + 1 <= j <= n,
                    self.timeframes_payload_from(0, 1) == self.timeframes_payload_from(i as int, j as int),
                    forall|x: int, y: int|
                        0 <= x < i && x < y < n ==> !timeframes_overlap(
                            #[trigger] self.timeframes@[x],
                            #[trigger] self.timeframes@[y],
                        ),
                    forall|y: int|
                        i < y < j ==> !timeframes_overlap(
                            self.timeframes@[i as int],
                            #[trigger] self.timeframes@[y],
                        ),
                decreases n - j,
            {
                let r = check_timeframe_pair(&self.timeframes[i], &self.timeframes[j]);
                if r.is_err() {
                    return r;
                }
                j += 1;
            }
            i += 1;
        }
        Ok(())
    }

    /// Along every shape, the distance travelled increases with the point
    /// sequence.
    pub open spec fn shapes_ok(&self) -> bool {
        forall|i: int, j: int|
            0 <= i < self.shapes@.len() && 0 <= j < self.shapes@.len() ==> shape_pair_ok(
                #[trigger] self.shapes@[i],
                #[trigger] self.shapes@[j],
            )
    }

    /// The fault of the shape check.
    pub open spec fn shapes_fault(&self) -> Option<(DatasetFault, Seq<char>)> {
        if self.shapes_ok() {
            None
        } else {
            Some((DatasetFault::InconsistentValue, "shape_dist_traveled"@))
        }
    }

    /// The payload of the first pair of shape points out of order, pairs
    /// taken from `(a, b)` on by first and then second position.
    pub open spec fn shapes_payload_from(&self, a: int, b: int) -> Option<(Seq<char>, Seq<Schema>)>
        decreases self.shapes@.len() - a, self.shapes@.len() - b,
    {
        let n = self.shapes@.len();
        if a < 0 || a >= n {
            None
        } else if b < 0 || b >= n {
            self.shapes_payload_from(a + 1, 0)
        } else if !shape_pair_ok(self.shapes@[a], self.shapes@[b]) {
            Some((self.shapes@[b].shape_id.0@, seq![Schema::Shape(self.shapes@[a]), Schema::Shape(self.shapes@[b])]))
        } else {
            self.shapes_payload_from(a, b + 1)
        }
    }

    /// Checks the distances along the shapes.
    pub fn check_shapes(&self) -> (r: Result<(), Error>)
        ensures
            dataset_outcome(r, self.shapes_ok()),
            reports_dataset_fault(r, self.shapes_fault()),
            carries_payload(r, self.shapes_payload_from(0, 0)),
    {
        let n = self.shapes.len();
        let mut i: usize = 0;
        while i < n
            invariant
                n == self.shapes@.len(),
                0 <= i <= n,
                self.shapes_payload_from(0, 0) == self.shapes_payload_from(i as int, 0),
                forall|x: int, y: int|
                    0 <= x < i && 0 <= y < n ==> shape_pair_ok(
                        #[trigger] self.shapes@[x],
                        #[trigger] self.shapes@[y],
                    ),
            decreases n - i,
        {
            let mut j: usize = 0;
            while j < n
                invariant
                    n == self.shapes@.len(),
                    0 <= i < n,
                    0 <= j <= n,
                    self.shapes_payload_from(0, 0) == self.shapes_payload_from(i as int, j as int),
                    forall|x: int, y: int|
                        0 <= x < i && 0 <= y < n ==> shape_pair_ok(
                            #[trigger] self.shapes@[x],
                            #[trigger] self.shapes@[y],
                        ),
                    forall|y: int| 0 <= y < j ==> shape_pair_ok(self.shapes@[i as int], #[trigger] self.shapes@[y]),
                decreases n - j,
            {
                let r = check_shape_pair(&self.shapes[i], &self.shapes[j]);
                if r.is_err() {
                    return r;
                }
                j += 1;
            }
            i += 1;
        }
        Ok(())
    }

    /// The rules for one pathway: known endpoints, an exit gate that is not
    /// bidirectional, and no station linked to itself.
    pub open spec fn pathway_ok(&self, p: Pathway) -> bool {
        &&& has_key(self.stops@, p.from_stop_id.0@)
        &&& has_key(self.stops@, p.to_stop_id.0@)
        &&& !(p.pathway_mode == PathwayMode::ExitGate && p.is_bidirectional)
        &&& !(is_station(self.stops@, p.from_stop_id.0@) && is_station(self.stops@, p.to_stop_id.0@)
            && p.from_stop_id.0@ == p.to_stop_id.0@)
    }

    /// The first rule that one record of pathways breaks.
    pub open spec fn pathway_record_fault(&self, r: Pathway) -> Option<(DatasetFault, Seq<char>)> {
        if !has_key(self.stops@, r.from_stop_id.0@) {
            Some((DatasetFault::ForeignKeyNotFound, "from_stop_id"@))
        } else if !has_key(self.stops@, r.to_stop_id.0@) {
            Some((DatasetFault::ForeignKeyNotFound, "to_stop_id"@))
        } else if r.pathway_mode == PathwayMode::ExitGate && r.is_bidirectional {
            Some((DatasetFault::InconsistentValue, "is_bidirectional"@))
        } else if is_station(self.stops@, r.from_stop_id.0@) && is_station(self.stops@, r.to_stop_id.0@) && r.from_stop_id.0@ == r.to_stop_id.0@ {
            Some((DatasetFault::InconsistentValue, "from_stop_id and to_stop_id"@))
        } else {
            None
        }
    }

    /// The fault of the first record of pathways at or after `i` that breaks
    /// a rule.
    pub open spec fn pathway_fault_from(&self, i: int) -> Option<(DatasetFault, Seq<char>)>
        decreases self.pathways@.len() - i,
    {
        if i < 0 || i >= self.pathways@.len() {
            None
        } else if self.pathway_record_fault(self.pathways@[i]) is Some {
            self.pathway_record_fault(self.pathways@[i])
        } else {
            self.pathway_fault_from(i + 1)
        }
    }

    /// The value and records that the first rule broken by one record of
    /// pathways is reported with.
    pub open spec fn pathway_record_payload(&self, r: Pathway) -> Option<(Seq<char>, Seq<Schema>)> {
        if !has_key(self.stops@, r.from_stop_id.0@) {
            Some((r.from_stop_id.0@, seq![Schema::Pathway(r)]))
        } else if !has_key(self.stops@, r.to_stop_id.0@) {
            Some((r.to_stop_id.0@, seq![Schema::Pathway(r)]))
        } else if r.pathway_mode == PathwayMode::ExitGate && r.is_bidirectional {
            Some((r.pathway_id.0@, seq![Schema::Pathway(r)]))
        } else if is_station(self.stops@, r.from_stop_id.0@) && is_station(self.stops@, r.to_stop_id.0@) && r.from_stop_id.0@ == r.to_stop_id.0@ {
            Some((r.from_stop_id.0@, seq![Schema::Pathway(r)]))
        } else {
            None
        }
    }

    /// The payload of the first record of pathways at or after `i` that
    /// breaks a rule.
    pub open spec fn pathway_payload_from(&self, i: int) -> Option<(Seq<char>, Seq<Schema>)>
        decreases self.pathways@.len() - i,
    {
        if i < 0 || i >= self.pathways@.len() {
            None
        } else if self.pathway_record_fault(self.pathways@[i]) is Some {
            self.pathway_record_payload(self.pathways@[i])
        } else {
            self.pathway_payload_from(i + 1)
        }
    }

    /// Every pathway obeys its rules.
    pub open spec fn pathways_ok(&self) -> bool {
        forall|i: int| 0 <= i < self.pathways@.len() ==> self.pathway_ok(#[trigger] self.pathways@[i])
    }

    /// Checks the pathways.
    pub fn check_pathways(&self) -> (r: Result<(), Error>)
        ensures
            dataset_outcome(r, self.pathways_ok()),
            reports_dataset_fault(r, self.pathway_fault_from(0)),
            carries_payload(r, self.pathway_payload_from(0)),
    {
        let mut i: usize = 0;
        while i < self.pathways.len()
            invariant
                0 <= i <= self.pathways@.len(),
                forall|k: int| 0 <= k < i ==> self.pathway_ok(#[trigger] self.pathways@[k]),
                self.pathway_fault_from(0) == self.pathway_fault_from(i as int),
                self.pathway_payload_from(0) == self.pathway_payload_from(i as int),
            decreases self.pathways@.len() - i,
        {
            let p = &self.pathways[i];
            if !contains_key(&self.stops, &p.from_stop_id.0) {
                return Err(
                    dataset_error(
                        DatasetFault::ForeignKeyNotFound,
                        "from_stop_id",
                        p.from_stop_id.0.clone(),
                        "stops.txt",
                        one(Schema::Pathway(p.copy())),
                    ),
                );
            }
            if !contains_key(&self.stops, &p.to_stop_id.0) {
                return Err(
                    dataset_error(
                        DatasetFault::ForeignKeyNotFound,
                        "to_stop_id",
                        p.to_stop_id.0.clone(),
                        "stops.txt",
                        one(Schema::Pathway(p.copy())),
                    ),
                );
            }
            if p.pathway_mode == PathwayMode::ExitGate && p.is_bidirectional {
                return Err(
                    dataset_error(
                        DatasetFault::InconsistentValue,
                        "is_bidirectional",
                        p.pathway_id.0.clone(),
                        "Exit gates (pathway_mode=7) must not be bidirectional",
                        one(Schema::Pathway(p.copy())),
                    ),
                );
            }
            if self.parent_is_station(&p.from_stop_id) && self.parent_is_station(&p.to_stop_id)
                && p.from_stop_id.0 == p.to_stop_id.0 {
                return Err(
                    dataset_error(
                        DatasetFault::InconsistentValue,
                        "from_stop_id and to_stop_id",
                        p.from_stop_id.0.clone(),
                        "Pathway cannot connect a station to itself",
                        one(Schema::Pathway(p.copy())),
                    ),
                );
            }
            i += 1;
        }
        Ok(())
    }

    /// Stop identifiers and location group identifiers are all distinct.
    pub open spec fn location_ids_distinct(&self) -> bool {
        &&& forall|i: int, j: int|
            0 <= i < j < self.stops@.len() ==> (#[trigger] self.stops@[i]).stop_id.0@ != (
            #[trigger] self.stops@[j]).stop_id.0@
        &&& forall|i: int, j: int|
            0 <= i < self.location_groups@.len() && 0 <= j < self.stops@.len() ==> (
            #[trigger] self.location_groups@[i]).location_group_id.0@ != (
            #[trigger] self.stops@[j]).stop_id.0@
        &&& forall|i: int, j: int|
            0 <= i < j < self.location_groups@.len() ==> (
            #[trigger] self.location_groups@[i]).location_group_id.0@ != (
            #[trigger] self.location_groups@[j]).location_group_id.0@
    }

    /// The stop identifiers are all distinct.
    pub open spec fn stop_ids_distinct(&self) -> bool {
        forall|i: int, j: int|
            0 <= i < j < self.stops@.len() ==> (#[trigger] self.stops@[i]).stop_id.0@ != (
            #[trigger] self.stops@[j]).stop_id.0@
    }

    /// The fault of the identifier check: a repeated stop identifier first,
    /// then a location group identifier that repeats one already seen.
    pub open spec fn location_ids_fault(&self) -> Option<(DatasetFault, Seq<char>)> {
        if !self.stop_ids_distinct() {
            Some((DatasetFault::PrimaryKeyNotUnique, "stop_id"@))
        } else if !self.location_ids_distinct() {
            Some((DatasetFault::PrimaryKeyNotUnique, "location_group_id"@))
        } else {
            None
        }
    }

    /// The payload of the first stop at or after `i` whose identifier an
    /// earlier stop has.
    pub open spec fn stop_dup_payload_from(&self, i: int) -> Option<(Seq<char>, Seq<Schema>)>
        decreases self.stops@.len() - i,
    {
        if i < 0 || i >= self.stops@.len() {
            None
        } else if exists|j: int|
            0 <= j < i && (#[trigger] self.stops@[j]).stop_id.0@ == self.stops@[i].stop_id.0@ {
            Some((self.stops@[i].stop_id.0@, seq![Schema::Stop(self.stops@[i])]))
        } else {
            self.stop_dup_payload_from(i + 1)
        }
    }

    /// The payload of the first location group at or after `g` whose
    /// identifier a stop or an earlier group has.
    pub open spec fn group_clash_payload_from(&self, g: int) -> Option<(Seq<char>, Seq<Schema>)>
        decreases self.location_groups@.len() - g,
    {
        let lg = self.location_groups@;
        if g < 0 || g >= lg.len() {
            None
        } else if (exists|j: int|
            0 <= j < self.stops@.len() && (#[trigger] self.stops@[j]).stop_id.0@ == lg[g].location_group_id.0@)
            || (exists|h: int| 0 <= h < g && (#[trigger] lg[h]).location_group_id.0@ == lg[g].location_group_id.0@) {
            Some((lg[g].location_group_id.0@, seq![Schema::LocationGroup(lg[g])]))
        } else {
            self.group_clash_payload_from(g + 1)
        }
    }

    /// The payload of the identifier check.
    pub open spec fn location_ids_payload(&self) -> Option<(Seq<char>, Seq<Schema>)> {
        if !self.stop_ids_distinct() {
            self.stop_dup_payload_from(0)
        } else if !self.location_ids_distinct() {
            self.group_clash_payload_from(0)
        } else {
            None
        }
    }

    /// Checks that stop and location group identifiers are all distinct.
    pub fn check_location_ids(&self) -> (r: Result<(), Error>)
        ensures
            dataset_outcome(r, self.location_ids_distinct()),
            reports_dataset_fault(r, self.location_ids_fault()),
            carries_payload(r, self.location_ids_payload()),
    {
        let n = self.stops.len();
        let mut i: usize = 0;
        while i < n
            invariant
                self.stop_dup_payload_from(0) == self.stop_dup_payload_from(i as int),
                self.group_clash_payload_from(0) == self.group_clash_payload_from(0),
                n == self.stops@.len(),
                0 <= i <= n,
                forall|x: int, y: int|
                    0 <= x < y < i ==> (#[trigger] self.stops@[x]).stop_id.0@ != (
                    #[trigger] self.stops@[y]).stop_id.0@,
            decreases n - i,
        {
            let mut j: usize = 0;
            while j < i
                invariant
                    self.stop_dup_payload_from(0) == self.stop_dup_payload_from(i as int),
                    self.group_clash_payload_from(0) == self.group_clash_payload_from(0),
                    n == self.stops@.len(),
                    0 <= j <= i < n,
                    forall|x: int, y: int|
                        0 <= x < y < i ==> (#[trigger] self.stops@[x]).stop_id.0@ != (
                        #[trigger] self.stops@[y]).stop_id.0@,
                    forall|x: int|
                        0 <= x < j ==> (#[trigger] self.stops@[x]).stop_id.0@
                            != self.stops@[i as int].stop_id.0@,
                decreases i - j,
            {
                if self.stops[j].stop_id.0 == self.stops[i].stop_id.0 {
                    return Err(
                        dataset_error(
                            DatasetFault::PrimaryKeyNotUnique,
                            "stop_id",
                            self.stops[i].stop_id.0.clone(),
                            "stop_id",
                            one(Schema::Stop(self.stops[i].copy())),
                        ),
                    );
                }
                j += 1;
            }
            i += 1;
        }
        assert(self.stop_ids_distinct());
        let m = self.location_groups.len();
        let mut g: usize = 0;
        while g < m
            invariant
                self.stop_dup_payload_from(0) == self.stop_dup_payload_from(i as int),
                self.group_clash_payload_from(0) == self.group_clash_payload_from(g as int),
                n == self.stops@.len(),
                m == self.location_groups@.len(),
                0 <= g <= m,
                self.stop_ids_distinct(),
                forall|x: int, y: int|
                    0 <= x < y < n ==> (#[trigger] self.stops@[x]).stop_id.0@ != (
                    #[trigger] self.stops@[y]).stop_id.0@,
                forall|x: int, y: int|
                    0 <= x < g && 0 <= y < n ==> (
                    #[trigger] self.location_groups@[x]).location_group_id.0@ != (
                    #[trigger] self.stops@[y]).stop_id.0@,
                forall|x: int, y: int|
                    0 <= x < y < g ==> (
                    #[trigger] self.location_groups@[x]).location_group_id.0@ != (
                    #[trigger] self.location_groups@[y]).location_group_id.0@,
            decreases m - g,
        {
            let lg = &self.location_groups[g];
            let mut j: usize = 0;
            while j < n
                invariant
                    self.stop_dup_payload_from(0) == self.stop_dup_payload_from(i as int),
                    self.group_clash_payload_from(0) == self.group_clash_payload_from(g as int),
                    n == self.stops@.len(),
                    m == self.location_groups@.len(),
                    0 <= g < m,
                    0 <= j <= n,
                    self.stop_ids_distinct(),
                    *lg == self.location_groups@[g as int],
                    forall|y: int|
                        0 <= y < j ==> self.location_groups@[g as int].location_group_id.0@ != (
                        #[trigger] self.stops@[y]).stop_id.0@,
                decreases n - j,
            {
                if self.stops[j].stop_id.0 == lg.location_group_id.0 {
                    return Err(
                        dataset_error(
                            DatasetFault::PrimaryKeyNotUnique,
                            "location_group_id",
                            lg.location_group_id.0.clone(),
                            "location_group_id",
                            one(Schema::LocationGroup(lg.copy())),
                        ),
                    );
                }
                j += 1;
            }
            let mut h: usize = 0;
            while h < g
                invariant
                    self.stop_dup_payload_from(0) == self.stop_dup_payload_from(i as int),
                    self.group_clash_payload_from(0) == self.group_clash_payload_from(g as int),
                    m == self.location_groups@.len(),
                    0 <= h <= g < m,
                    self.stop_ids_distinct(),
                    *lg == self.location_groups@[g as int],
                    forall|x: int|
                        0 <= x < h ==> (#[trigger] self.location_groups@[x]).location_group_id.0@
                            != self.location_groups@[g as int].location_group_id.0@,
                decreases g - h,
            {
                if self.location_groups[h].location_group_id.0 == lg.location_group_id.0 {
                    return Err(
                        dataset_error(
                            DatasetFault::PrimaryKeyNotUnique,
                            "location_group_id",
                            lg.location_group_id.0.clone(),
                            "location_group_id",
                            one(Schema::LocationGroup(lg.copy())),
                        ),
                    );
                }
                h += 1;
            }
            g += 1;
        }
        Ok(())
    }

    /// The first reference of one record of fare_rules that does not resolve.
    pub open spec fn fare_rules_record_fault(&self, r: FareRule) -> Option<(DatasetFault, Seq<char>)> {
        if !has_key(self.fare_attributes@, r.fare_id.0@) {
            Some((DatasetFault::ForeignKeyNotFound, "fare_id"@))
        } else if r.route_id is Some && !has_key(self.routes@, r.route_id.unwrap().0@) {
            Some((DatasetFault::ForeignKeyNotFound, "route_id"@))
        } else if r.origin_id is Some && !self.has_zone(r.origin_id.unwrap()@) {
            Some((DatasetFault::ForeignKeyNotFound, "origin_id"@))
        } else if r.destination_id is Some && !self.has_zone(r.destination_id.unwrap()@) {
            Some((DatasetFault::ForeignKeyNotFound, "destination_id"@))
        } else if r.contains_id is Some && !self.has_zone(r.contains_id.unwrap()@) {
            Some((DatasetFault::ForeignKeyNotFound, "contains_id"@))
        } else {
            None
        }
    }

    /// The fault of the first record of fare_rules at or after `i` whose
    /// references do not resolve.
    pub open spec fn fare_rules_fault_from(&self, i: int) -> Option<(DatasetFault, Seq<char>)>
        decreases self.fare_rules@.len() - i,
    {
        if i < 0 || i >= self.fare_rules@.len() {
            None
        } else if self.fare_rules_record_fault(self.fare_rules@[i]) is Some {
            self.fare_rules_record_fault(self.fare_rules@[i])
        } else {
            self.fare_rules_fault_from(i + 1)
        }
    }

    /// The value and record that the first unresolved reference of one
    /// record of fare_rules is reported with.
    pub open spec fn fare_rules_record_payload(&self, r: FareRule) -> Option<(Seq<char>, Seq<Schema>)> {
        if !has_key(self.fare_attributes@, r.fare_id.0@) {
            Some((r.fare_id.0@, seq![Schema::FareRule(r)]))
        } else if r.route_id is Some && !has_key(self.routes@, r.route_id.unwrap().0@) {
            Some((r.route_id.unwrap().0@, seq![Schema::FareRule(r)]))
        } else if r.origin_id is Some && !self.has_zone(r.origin_id.unwrap()@) {
            Some((r.origin_id.unwrap()@, seq![Schema::FareRule(r)]))
        } else if r.destination_id is Some && !self.has_zone(r.destination_id.unwrap()@) {
            Some((r.destination_id.unwrap()@, seq![Schema::FareRule(r)]))
        } else if r.contains_id is Some && !self.has_zone(r.contains_id.unwrap()@) {
            Some((r.contains_id.unwrap()@, seq![Schema::FareRule(r)]))
        } else {
            None
        }
    }

    /// The payload of the first record of fare_rules at or after `i` whose
    /// references do not resolve.
    pub open spec fn fare_rules_payload_from(&self, i: int) -> Option<(Seq<char>, Seq<Schema>)>
        decreases self.fare_rules@.len() - i,
    {
        if i < 0 || i >= self.fare_rules@.len() {
            None
        } else if self.fare_rules_record_fault(self.fare_rules@[i]) is Some {
            self.fare_rules_record_payload(self.fare_rules@[i])
        } else {
            self.fare_rules_payload_from(i + 1)
        }
    }

    /// Every fare rule names a known fare, route and fare zones.
    pub open spec fn fare_rules_ok(&self) -> bool {
        forall|i: int|
            0 <= i < self.fare_rules@.len() ==> (#[trigger] self.fare_rules_record_fault(self.fare_rules@[i])) is None
    }

    /// Checks that the references of fare_rules resolve, and reports the first
    /// that does not.
    pub fn check_fare_rules(&self) -> (r: Result<(), Error>)
        ensures
            dataset_outcome(r, self.fare_rules_ok()),
            reports_dataset_fault(r, self.fare_rules_fault_from(0)),
            carries_payload(r, self.fare_rules_payload_from(0)),
    {
        let mut i: usize = 0;
        while i < self.fare_rules.len()
            invariant
                0 <= i <= self.fare_rules@.len(),
                forall|k: int| 0 <= k < i ==> (#[trigger] self.fare_rules_record_fault(self.fare_rules@[k])) is None,
                self.fare_rules_fault_from(0) == self.fare_rules_fault_from(i as int),
                self.fare_rules_payload_from(0) == self.fare_rules_payload_from(i as int),
            decreases self.fare_rules@.len() - i,
        {
            let rec = &self.fare_rules[i];
            if !contains_key(&self.fare_attributes, &rec.fare_id.0) {
                return Err(
                    dataset_error(
                        DatasetFault::ForeignKeyNotFound,
                        "fare_id",
                        rec.fare_id.0.clone(),
                        "fare_attributes.txt",
                        one(Schema::FareRule(rec.copy())),
                    ),
                );
            }
            if let Some(x) = &rec.route_id {
                if !contains_key(&self.routes, &x.0) {
                    return Err(
                        dataset_error(
                            DatasetFault::ForeignKeyNotFound,
                            "route_id",
                            x.0.clone(),
                            "routes.txt",
                            one(Schema::FareRule(rec.copy())),
                        ),
                    );
                }
            }
            if let Some(x) = &rec.origin_id {
                if !self.zone_exists(x) {
                    return Err(
                        dataset_error(
                            DatasetFault::ForeignKeyNotFound,
                            "origin_id",
                            x.clone(),
                            "stops.txt (zone_id)",
                            one(Schema::FareRule(rec.copy())),
                        ),
                    );
                }
            }
            if let Some(x) = &rec.destination_id {
                if !self.zone_exists(x) {
                    return Err(
                        dataset_error(
                            DatasetFault::ForeignKeyNotFound,
                            "destination_id",
                            x.clone(),
                            "stops.txt (zone_id)",
                            one(Schema::FareRule(rec.copy())),
                        ),
                    );
                }
            }
            if let Some(x) = &rec.contains_id {
                if !self.zone_exists(x) {
                    return Err(
                        dataset_error(
                            DatasetFault::ForeignKeyNotFound,
                            "contains_id",
                            x.clone(),
                            "stops.txt (zone_id)",
                            one(Schema::FareRule(rec.copy())),
                        ),
                    );
                }
            }
            i += 1;
        }
        Ok(())
    }

    /// The first reference of one record of timeframes that does not resolve.
    pub open spec fn timeframe_services_record_fault(&self, r: Timeframe) -> Option<(DatasetFault, Seq<char>)> {
        if !self.has_service(r.service_id.0@) {
            Some((DatasetFault::ForeignKeyNotFound, "service_id"@))
        } else {
            None
        }
    }

    /// The fault of the first record of timeframes at or after `i` whose
    /// references do not resolve.
    pub open spec fn timeframe_services_fault_from(&self, i: int) -> Option<(DatasetFault, Seq<char>)>
        decreases self.timeframes@.len() - i,
    {
        if i < 0 || i >= self.timeframes@.len() {
            None
        } else if self.timeframe_services_record_fault(self.timeframes@[i]) is Some {
            self.timeframe_services_record_fault(self.timeframes@[i])
        } else {
            self.timeframe_services_fault_from(i + 1)
        }
    }

    /// The value and record that the first unresolved reference of one
    /// record of timeframes is reported with.
    pub open spec fn timeframe_services_record_payload(&self, r: Timeframe) -> Option<(Seq<char>, Seq<Schema>)> {
        if !self.has_service(r.service_id.0@) {
            Some((r.service_id.0@, seq![Schema::Timeframe(r)]))
        } else {
            None
        }
    }

    /// The payload of the first record of timeframes at or after `i` whose
    /// references do not resolve.
    pub open spec fn timeframe_services_payload_from(&self, i: int) -> Option<(Seq<char>, Seq<Schema>)>
        decreases self.timeframes@.len() - i,
    {
        if i < 0 || i >= self.timeframes@.len() {
            None
        } else if self.timeframe_services_record_fault(self.timeframes@[i]) is Some {
            self.timeframe_services_record_payload(self.timeframes@[i])
        } else {
            self.timeframe_services_payload_from(i + 1)
        }
    }

    /// Every timeframe names a known service.
    pub open spec fn timeframe_services_ok(&self) -> bool {
        forall|i: int|
            0 <= i < self.timeframes@.len() ==> (#[trigger] self.timeframe_services_record_fault(self.timeframes@[i])) is None
    }

    /// Checks that the references of timeframes resolve, and reports the first
    /// that does not.
    pub fn check_timeframe_services(&self) -> (r: Result<(), Error>)
        ensures
            dataset_outcome(r, self.timeframe_services_ok()),
            reports_dataset_fault(r, self.timeframe_services_fault_from(0)),
            carries_payload(r, self.timeframe_services_payload_from(0)),
    {
        let mut i: usize = 0;
        while i < self.timeframes.len()
            invariant
                0 <= i <= self.timeframes@.len(),
                forall|k: int| 0 <= k < i ==> (#[trigger] self.timeframe_services_record_fault(self.timeframes@[k])) is None,
                self.timeframe_services_fault_from(0) == self.timeframe_services_fault_from(i as int),
                self.timeframe_services_payload_from(0) == self.timeframe_services_payload_from(i as int),
            decreases self.timeframes@.len() - i,
        {
            let rec = &self.timeframes[i];
            if !self.service_exists(&rec.service_id.0) {
                return Err(
                    dataset_error(
                        DatasetFault::ForeignKeyNotFound,
                        "service_id",
                        rec.service_id.0.clone(),
                        "calendar.txt or calendar_dates.txt",
                        one(Schema::Timeframe(rec.copy())),
                    ),
                );
            }
            i += 1;
        }
        Ok(())
    }

    /// The first reference of one record of fare_products that does not resolve.
    pub open spec fn fare_products_record_fault(&self, r: FareProduct) -> Option<(DatasetFault, Seq<char>)> {
        if r.fare_media_id is Some && !has_key(self.fare_medias@, r.fare_media_id.unwrap().0@) {
            Some((DatasetFault::ForeignKeyNotFound, "fare_media_id"@))
        } else {
            None
        }
    }

    /// The fault of the first record of fare_products at or after `i` whose
    /// references do not resolve.
    pub open spec fn fare_products_fault_from(&self, i: int) -> Option<(DatasetFault, Seq<char>)>
        decreases self.fare_products@.len() - i,
    {
        if i < 0 || i >= self.fare_products@.len() {
            None
        } else if self.fare_products_record_fault(self.fare_products@[i]) is Some {
            self.fare_products_record_fault(self.fare_products@[i])
        } else {
            self.fare_products_fault_from(i + 1)
        }
    }

    /// The value and record that the first unresolved reference of one
    /// record of fare_products is reported with.
    pub open spec fn fare_products_record_payload(&self, r: FareProduct) -> Option<(Seq<char>, Seq<Schema>)> {
        if r.fare_media_id is Some && !has_key(self.fare_medias@, r.fare_media_id.unwrap().0@) {
            Some((r.fare_media_id.unwrap().0@, seq![Schema::FareProduct(r)]))
        } else {
            None
        }
    }

    /// The payload of the first record of fare_products at or after `i` whose
    /// references do not resolve.
    pub open spec fn fare_products_payload_from(&self, i: int) -> Option<(Seq<char>, Seq<Schema>)>
        decreases self.fare_products@.len() - i,
    {
        if i < 0 || i >= self.fare_products@.len() {
            None
        } else if self.fare_products_record_fault(self.fare_products@[i]) is Some {
            self.fare_products_record_payload(self.fare_products@[i])
        } else {
            self.fare_products_payload_from(i + 1)
        }
    }

    /// Every fare product names a known fare medium, if any.
    pub open spec fn fare_products_ok(&self) -> bool {
        forall|i: int|
            0 <= i < self.fare_products@.len() ==> (#[trigger] self.fare_products_record_fault(self.fare_products@[i])) is None
    }

    /// Checks that the references of fare_products resolve, and reports the first
    /// that does not.
    pub fn check_fare_products(&self) -> (r: Result<(), Error>)
        ensures
            dataset_outcome(r, self.fare_products_ok()),
            reports_dataset_fault(r, self.fare_products_fault_from(0)),
            carries_payload(r, self.fare_products_payload_from(0)),
    {
        let mut i: usize = 0;
        while i < self.fare_products.len()
            invariant
                0 <= i <= self.fare_products@.len(),
                forall|k: int| 0 <= k < i ==> (#[trigger] self.fare_products_record_fault(self.fare_products@[k])) is None,
                self.fare_products_fault_from(0) == self.fare_products_fault_from(i as int),
                self.fare_products_payload_from(0) == self.fare_products_payload_from(i as int),
            decreases self.fare_products@.len() - i,
        {
            let rec = &self.fare_products[i];
            if let Some(x) = &rec.fare_media_id {
                if !contains_key(&self.fare_medias, &x.0) {
                    return Err(
                        dataset_error(
                            DatasetFault::ForeignKeyNotFound,
                            "fare_media_id",
                            x.0.clone(),
                            "fare_media.txt",
                            one(Schema::FareProduct(rec.copy())),
                        ),
                    );
                }
            }
            i += 1;
        }
        Ok(())
    }

    /// The first reference of one record of fare_leg_rules that does not resolve.
    pub open spec fn fare_leg_rules_record_fault(&self, r: FareLegRule) -> Option<(DatasetFault, Seq<char>)> {
        if r.network_id is Some && !self.has_network(r.network_id.unwrap().0@) {
            Some((DatasetFault::ForeignKeyNotFound, "network_id"@))
        } else if r.from_area_id is Some && !has_key(self.areas@, r.from_area_id.unwrap().0@) {
            Some((DatasetFault::ForeignKeyNotFound, "from_area_id"@))
        } else if r.to_area_id is Some && !has_key(self.areas@, r.to_area_id.unwrap().0@) {
            Some((DatasetFault::ForeignKeyNotFound, "to_area_id"@))
        } else if r.from_timeframe_group_id is Some && !has_key(self.timeframes@, r.from_timeframe_group_id.unwrap().0@) {
            Some((DatasetFault::ForeignKeyNotFound, "from_timeframe_group_id"@))
        } else if r.to_timeframe_group_id is Some && !has_key(self.timeframes@, r.to_timeframe_group_id.unwrap().0@) {
            Some((DatasetFault::ForeignKeyNotFound, "to_timeframe_group_id"@))
        } else if !has_key(self.fare_products@, r.fare_product_id.0@) {
            Some((DatasetFault::ForeignKeyNotFound, "fare_product_id"@))
        } else {
            None
        }
    }

    /// The fault of the first record of fare_leg_rules at or after `i` whose
    /// references do not resolve.
    pub open spec fn fare_leg_rules_fault_from(&self, i: int) -> Option<(DatasetFault, Seq<char>)>
        decreases self.fare_leg_rules@.len() - i,
    {
        if i < 0 || i >= self.fare_leg_rules@.len() {
            None
        } else if self.fare_leg_rules_record_fault(self.fare_leg_rules@[i]) is Some {
            self.fare_leg_rules_record_fault(self.fare_leg_rules@[i])
        } else {
            self.fare_leg_rules_fault_from(i + 1)
        }
    }

    /// The value and record that the first unresolved reference of one
    /// record of fare_leg_rules is reported with.
    pub open spec fn fare_leg_rules_record_payload(&self, r: FareLegRule) -> Option<(Seq<char>, Seq<Schema>)> {
        if r.network_id is Some && !self.has_network(r.network_id.unwrap().0@) {
            Some((r.network_id.unwrap().0@, seq![Schema::FareLegRule(r)]))
        } else if r.from_area_id is Some && !has_key(self.areas@, r.from_area_id.unwrap().0@) {
            Some((r.from_area_id.unwrap().0@, seq![Schema::FareLegRule(r)]))
        } else if r.to_area_id is Some && !has_key(self.areas@, r.to_area_id.unwrap().0@) {
            Some((r.to_area_id.unwrap().0@, seq![Schema::FareLegRule(r)]))
        } else if r.from_timeframe_group_id is Some && !has_key(self.timeframes@, r.from_timeframe_group_id.unwrap().0@) {
            Some((r.from_timeframe_group_id.unwrap().0@, seq![Schema::FareLegRule(r)]))
        } else if r.to_timeframe_group_id is Some && !has_key(self.timeframes@, r.to_timeframe_group_id.unwrap().0@) {
            Some((r.to_timeframe_group_id.unwrap().0@, seq![Schema::FareLegRule(r)]))
        } else if !has_key(self.fare_products@, r.fare_product_id.0@) {
            Some((r.fare_product_id.0@, seq![Schema::FareLegRule(r)]))
        } else {
            None
        }
    }

    /// The payload of the first record of fare_leg_rules at or after `i` whose
    /// references do not resolve.
    pub open spec fn fare_leg_rules_payload_from(&self, i: int) -> Option<(Seq<char>, Seq<Schema>)>
        decreases self.fare_leg_rules@.len() - i,
    {
        if i < 0 || i >= self.fare_leg_rules@.len() {
            None
        } else if self.fare_leg_rules_record_fault(self.fare_leg_rules@[i]) is Some {
            self.fare_leg_rules_record_payload(self.fare_leg_rules@[i])
        } else {
            self.fare_leg_rules_payload_from(i + 1)
        }
    }

    /// Every fare leg rule names known networks, areas, timeframe groups and a known fare product.
    pub open spec fn fare_leg_rules_ok(&self) -> bool {
        forall|i: int|
            0 <= i < self.fare_leg_rules@.len() ==> (#[trigger] self.fare_leg_rules_record_fault(self.fare_leg_rules@[i])) is None
    }

    /// Checks that the references of fare_leg_rules resolve, and reports the first
    /// that does not.
    pub fn check_fare_leg_rules(&self) -> (r: Result<(), Error>)
        ensures
            dataset_outcome(r, self.fare_leg_rules_ok()),
            reports_dataset_fault(r, self.fare_leg_rules_fault_from(0)),
            carries_payload(r, self.fare_leg_rules_payload_from(0)),
    {
        let mut i: usize = 0;
        while i < self.fare_leg_rules.len()
            invariant
                0 <= i <= self.fare_leg_rules@.len(),
                forall|k: int| 0 <= k < i ==> (#[trigger] self.fare_leg_rules_record_fault(self.fare_leg_rules@[k])) is None,
                self.fare_leg_rules_fault_from(0) == self.fare_leg_rules_fault_from(i as int),
                self.fare_leg_rules_payload_from(0) == self.fare_leg_rules_payload_from(i as int),
            decreases self.fare_leg_rules@.len() - i,
        {
            let rec = &self.fare_leg_rules[i];
            if let Some(x) = &rec.network_id {
                if !self.network_exists(&x.0) {
                    return Err(
                        dataset_error(
                            DatasetFault::ForeignKeyNotFound,
                            "network_id",
                            x.0.clone(),
                            "routes.txt or networks.txt",
                            one(Schema::FareLegRule(rec.copy())),
                        ),
                    );
                }
            }
            if let Some(x) = &rec.from_area_id {
                if !contains_key(&self.areas, &x.0) {
                    return Err(
                        dataset_error(
                            DatasetFault::ForeignKeyNotFound,
                            "from_area_id",
                            x.0.clone(),
                            "areas.txt",
                            one(Schema::FareLegRule(rec.copy())),
                        ),
                    );
                }
            }
            if let Some(x) = &rec.to_area_id {
                if !contains_key(&self.areas, &x.0) {
                    return Err(
                        dataset_error(
                            DatasetFault::ForeignKeyNotFound,
                            "to_area_id",
                            x.0.clone(),
                            "areas.txt",
                            one(Schema::FareLegRule(rec.copy())),
                        ),
                    );
                }
            }
            if let Some(x) = &rec.from_timeframe_group_id {
                if !contains_key(&self.timeframes, &x.0) {
                    return Err(
                        dataset_error(
                            DatasetFault::ForeignKeyNotFound,
                            "from_timeframe_group_id",
                            x.0.clone(),
                            "timeframes.txt",
                            one(Schema::FareLegRule(rec.copy())),
                        ),
                    );
                }
            }
            if let Some(x) = &rec.to_timeframe_group_id {
                if !contains_key(&self.timeframes, &x.0) {
                    return Err(
                        dataset_error(
                            DatasetFault::ForeignKeyNotFound,
                            "to_timeframe_group_id",
                            x.0.clone(),
                            "timeframes.txt",
                            one(Schema::FareLegRule(rec.copy())),
                        ),
                    );
                }
            }
            if !contains_key(&self.fare_products, &rec.fare_product_id.0) {
                return Err(
                    dataset_error(
                        DatasetFault::ForeignKeyNotFound,
                        "fare_product_id",
                        rec.fare_product_id.0.clone(),
                        "fare_products.txt",
                        one(Schema::FareLegRule(rec.copy())),
                    ),
                );
            }
            i += 1;
        }
        Ok(())
    }

    /// The first reference of one record of fare_transfers that does not resolve.
    pub open spec fn fare_transfers_record_fault(&self, r: FareTransferRule) -> Option<(DatasetFault, Seq<char>)> {
        if r.from_leg_group_id is Some && !has_key(self.fare_leg_rules@, r.from_leg_group_id.unwrap().0@) {
            Some((DatasetFault::ForeignKeyNotFound, "from_leg_group_id"@))
        } else if r.to_leg_group_id is Some && !has_key(self.fare_leg_rules@, r.to_leg_group_id.unwrap().0@) {
            Some((DatasetFault::ForeignKeyNotFound, "to_leg_group_id"@))
        } else if r.fare_product_id is Some && !has_key(self.fare_products@, r.fare_product_id.unwrap().0@) {
            Some((DatasetFault::ForeignKeyNotFound, "fare_product_id"@))
        } else {
            None
        }
    }

    /// The fault of the first record of fare_transfers at or after `i` whose
    /// references do not resolve.
    pub open spec fn fare_transfers_fault_from(&self, i: int) -> Option<(DatasetFault, Seq<char>)>
        decreases self.fare_transfers@.len() - i,
    {
        if i < 0 || i >= self.fare_transfers@.len() {
            None
        } else if self.fare_transfers_record_fault(self.fare_transfers@[i]) is Some {
            self.fare_transfers_record_fault(self.fare_transfers@[i])
        } else {
            self.fare_transfers_fault_from(i + 1)
        }
    }

    /// The value and record that the first unresolved reference of one
    /// record of fare_transfers is reported with.
    pub open spec fn fare_transfers_record_payload(&self, r: FareTransferRule) -> Option<(Seq<char>, Seq<Schema>)> {
        if r.from_leg_group_id is Some && !has_key(self.fare_leg_rules@, r.from_leg_group_id.unwrap().0@) {
            Some((r.from_leg_group_id.unwrap().0@, seq![Schema::FareTransferRule(r)]))
        } else if r.to_leg_group_id is Some && !has_key(self.fare_leg_rules@, r.to_leg_group_id.unwrap().0@) {
            Some((r.to_leg_group_id.unwrap().0@, seq![Schema::FareTransferRule(r)]))
        } else if r.fare_product_id is Some && !has_key(self.fare_products@, r.fare_product_id.unwrap().0@) {
            Some((r.fare_product_id.unwrap().0@, seq![Schema::FareTransferRule(r)]))
        } else {
            None
        }
    }

    /// The payload of the first record of fare_transfers at or after `i` whose
    /// references do not resolve.
    pub open spec fn fare_transfers_payload_from(&self, i: int) -> Option<(Seq<char>, Seq<Schema>)>
        decreases self.fare_transfers@.len() - i,
    {
        if i < 0 || i >= self.fare_transfers@.len() {
            None
        } else if self.fare_transfers_record_fault(self.fare_transfers@[i]) is Some {
            self.fare_transfers_record_payload(self.fare_transfers@[i])
        } else {
            self.fare_transfers_payload_from(i + 1)
        }
    }

    /// Every fare transfer rule names known leg groups and fare product.
    pub open spec fn fare_transfers_ok(&self) -> bool {
        forall|i: int|
            0 <= i < self.fare_transfers@.len() ==> (#[trigger] self.fare_transfers_record_fault(self.fare_transfers@[i])) is None
    }

    /// Checks that the references of fare_transfers resolve, and reports the first
    /// that does not.
    pub fn check_fare_transfers(&self) -> (r: Result<(), Error>)
        ensures
            dataset_outcome(r, self.fare_transfers_ok()),
            reports_dataset_fault(r, self.fare_transfers_fault_from(0)),
            carries_payload(r, self.fare_transfers_payload_from(0)),
    {
        let mut i: usize = 0;
        while i < self.fare_transfers.len()
            invariant
                0 <= i <= self.fare_transfers@.len(),
                forall|k: int| 0 <= k < i ==> (#[trigger] self.fare_transfers_record_fault(self.fare_transfers@[k])) is None,
                self.fare_transfers_fault_from(0) == self.fare_transfers_fault_from(i as int),
                self.fare_transfers_payload_from(0) == self.fare_transfers_payload_from(i as int),
            decreases self.fare_transfers@.len() - i,
        {
            let rec = &self.fare_transfers[i];
            if let Some(x) = &rec.from_leg_group_id {
                if !contains_key(&self.fare_leg_rules, &x.0) {
                    return Err(
                        dataset_error(
                            DatasetFault::ForeignKeyNotFound,
                            "from_leg_group_id",
                            x.0.clone(),
                            "fare_leg_rules.txt",
                            one(Schema::FareTransferRule(rec.copy())),
                        ),
                    );
                }
            }
            if let Some(x) = &rec.to_leg_group_id {
                if !contains_key(&self.fare_leg_rules, &x.0) {
                    return Err(
                        dataset_error(
                            DatasetFault::ForeignKeyNotFound,
                            "to_leg_group_id",
                            x.0.clone(),
                            "fare_leg_rules.txt",
                            one(Schema::FareTransferRule(rec.copy())),
                        ),
                    );
                }
            }
            if let Some(x) = &rec.fare_product_id {
                if !contains_key(&self.fare_products, &x.0) {
                    return Err(
                        dataset_error(
                            DatasetFault::ForeignKeyNotFound,
                            "fare_product_id",
                            x.0.clone(),
                            "fare_products.txt",
                            one(Schema::FareTransferRule(rec.copy())),
                        ),
                    );
                }
            }
            i += 1;
        }
        Ok(())
    }

    /// The first reference of one record of stops_areas that does not resolve.
    pub open spec fn stops_areas_record_fault(&self, r: StopArea) -> Option<(DatasetFault, Seq<char>)> {
        if !has_key(self.areas@, r.area_id.0@) {
            Some((DatasetFault::ForeignKeyNotFound, "area_id"@))
        } else if !has_key(self.stops@, r.stop_id.0@) {
            Some((DatasetFault::ForeignKeyNotFound, "stop_id"@))
        } else {
            None
        }
    }

    /// The fault of the first record of stops_areas at or after `i` whose
    /// references do not resolve.
    pub open spec fn stops_areas_fault_from(&self, i: int) -> Option<(DatasetFault, Seq<char>)>
        decreases self.stops_areas@.len() - i,
    {
        if i < 0 || i >= self.stops_areas@.len() {
            None
        } else if self.stops_areas_record_fault(self.stops_areas@[i]) is Some {
            self.stops_areas_record_fault(self.stops_areas@[i])
        } else {
            self.stops_areas_fault_from(i + 1)
        }
    }

    /// The value and record that the first unresolved reference of one
    /// record of stops_areas is reported with.
    pub open spec fn stops_areas_record_payload(&self, r: StopArea) -> Option<(Seq<char>, Seq<Schema>)> {
        if !has_key(self.areas@, r.area_id.0@) {
            Some((r.area_id.0@, seq![Schema::StopArea(r)]))
        } else if !has_key(self.stops@, r.stop_id.0@) {
            Some((r.stop_id.0@, seq![Schema::StopArea(r)]))
        } else {
            None
        }
    }

    /// The payload of the first record of stops_areas at or after `i` whose
    /// references do not resolve.
    pub open spec fn stops_areas_payload_from(&self, i: int) -> Option<(Seq<char>, Seq<Schema>)>
        decreases self.stops_areas@.len() - i,
    {
        if i < 0 || i >= self.stops_areas@.len() {
            None
        } else if self.stops_areas_record_fault(self.stops_areas@[i]) is Some {
            self.stops_areas_record_payload(self.stops_areas@[i])
        } else {
            self.stops_areas_payload_from(i + 1)
        }
    }

    /// Every assignment of a stop to an area names a known area and stop.
    pub open spec fn stops_areas_ok(&self) -> bool {
        forall|i: int|
            0 <= i < self.stops_areas@.len() ==> (#[trigger] self.stops_areas_record_fault(self.stops_areas@[i])) is None
    }

    /// Checks that the references of stops_areas resolve, and reports the first
    /// that does not.
    pub fn check_stops_areas(&self) -> (r: Result<(), Error>)
        ensures
            dataset_outcome(r, self.stops_areas_ok()),
            reports_dataset_fault(r, self.stops_areas_fault_from(0)),
            carries_payload(r, self.stops_areas_payload_from(0)),
    {
        let mut i: usize = 0;
        while i < self.stops_areas.len()
            invariant
                0 <= i <= self.stops_areas@.len(),
                forall|k: int| 0 <= k < i ==> (#[trigger] self.stops_areas_record_fault(self.stops_areas@[k])) is None,
                self.stops_areas_fault_from(0) == self.stops_areas_fault_from(i as int),
                self.stops_areas_payload_from(0) == self.stops_areas_payload_from(i as int),
            decreases self.stops_areas@.len() - i,
        {
            let rec = &self.stops_areas[i];
            if !contains_key(&self.areas, &rec.area_id.0) {
                return Err(
                    dataset_error(
                        DatasetFault::ForeignKeyNotFound,
                        "area_id",
                        rec.area_id.0.clone(),
                        "areas.txt",
                        one(Schema::StopArea(rec.copy())),
                    ),
                );
            }
            if !contains_key(&self.stops, &rec.stop_id.0) {
                return Err(
                    dataset_error(
                        DatasetFault::ForeignKeyNotFound,
                        "stop_id",
                        rec.stop_id.0.clone(),
                        "stops.txt",
                        one(Schema::StopArea(rec.copy())),
                    ),
                );
            }
            i += 1;
        }
        Ok(())
    }

    /// The first reference of one record of routes_networks that does not resolve.
    pub open spec fn routes_networks_record_fault(&self, r: RouteNetwork) -> Option<(DatasetFault, Seq<char>)> {
        if !has_key(self.networks@, r.network_id.0@) {
            Some((DatasetFault::ForeignKeyNotFound, "network_id"@))
        } else if !has_key(self.routes@, r.route_id.0@) {
            Some((DatasetFault::ForeignKeyNotFound, "route_id"@))
        } else {
            None
        }
    }

    /// The fault of the first record of routes_networks at or after `i` whose
    /// references do not resolve.
    pub open spec fn routes_networks_fault_from(&self, i: int) -> Option<(DatasetFault, Seq<char>)>
        decreases self.routes_networks@.len() - i,
    {
        if i < 0 || i >= self.routes_networks@.len() {
            None
        } else if self.routes_networks_record_fault(self.routes_networks@[i]) is Some {
            self.routes_networks_record_fault(self.routes_networks@[i])
        } else {
            self.routes_networks_fault_from(i + 1)
        }
    }

    /// The value and record that the first unresolved reference of one
    /// record of routes_networks is reported with.
    pub open spec fn routes_networks_record_payload(&self, r: RouteNetwork) -> Option<(Seq<char>, Seq<Schema>)> {
        if !has_key(self.networks@, r.network_id.0@) {
            Some((r.network_id.0@, seq![Schema::RouteNetwork(r)]))
        } else if !has_key(self.routes@, r.route_id.0@) {
            Some((r.route_id.0@, seq![Schema::RouteNetwork(r)]))
        } else {
            None
        }
    }

    /// The payload of the first record of routes_networks at or after `i` whose
    /// references do not resolve.
    pub open spec fn routes_networks_payload_from(&self, i: int) -> Option<(Seq<char>, Seq<Schema>)>
        decreases self.routes_networks@.len() - i,
    {
        if i < 0 || i >= self.routes_networks@.len() {
            None
        } else if self.routes_networks_record_fault(self.routes_networks@[i]) is Some {
            self.routes_networks_record_payload(self.routes_networks@[i])
        } else {
            self.routes_networks_payload_from(i + 1)
        }
    }

    /// Every assignment of a route to a network names a known network and route.
    pub open spec fn routes_networks_ok(&self) -> bool {
        forall|i: int|
            0 <= i < self.routes_networks@.len() ==> (#[trigger] self.routes_networks_record_fault(self.routes_networks@[i])) is None
    }

    /// Checks that the references of routes_networks resolve, and reports the first
    /// that does not.
    pub fn check_routes_networks(&self) -> (r: Result<(), Error>)
        ensures
            dataset_outcome(r, self.routes_networks_ok()),
            reports_dataset_fault(r, self.routes_networks_fault_from(0)),
            carries_payload(r, self.routes_networks_payload_from(0)),
    {
        let mut i: usize = 0;
        while i < self.routes_networks.len()
            invariant
                0 <= i <= self.routes_networks@.len(),
                forall|k: int| 0 <= k < i ==> (#[trigger] self.routes_networks_record_fault(self.routes_networks@[k])) is None,
                self.routes_networks_fault_from(0) == self.routes_networks_fault_from(i as int),
                self.routes_networks_payload_from(0) == self.routes_networks_payload_from(i as int),
            decreases self.routes_networks@.len() - i,
        {
            let rec = &self.routes_networks[i];
            if !contains_key(&self.networks, &rec.network_id.0) {
                return Err(
                    dataset_error(
                        DatasetFault::ForeignKeyNotFound,
                        "network_id",
                        rec.network_id.0.clone(),
                        "networks.txt",
                        one(Schema::RouteNetwork(rec.copy())),
                    ),
                );
            }
            if !contains_key(&self.routes, &rec.route_id.0) {
                return Err(
                    dataset_error(
                        DatasetFault::ForeignKeyNotFound,
                        "route_id",
                        rec.route_id.0.clone(),
                        "routes.txt",
                        one(Schema::RouteNetwork(rec.copy())),
                    ),
                );
            }
            i += 1;
        }
        Ok(())
    }

    /// The first reference of one record of frequencies that does not resolve.
    pub open spec fn frequencies_record_fault(&self, r: Frequency) -> Option<(DatasetFault, Seq<char>)> {
        if !has_key(self.trips@, r.trip_id.0@) {
            Some((DatasetFault::ForeignKeyNotFound, "trip_id"@))
        } else {
            None
        }
    }

    /// The fault of the first record of frequencies at or after `i` whose
    /// references do not resolve.
    pub open spec fn frequencies_fault_from(&self, i: int) -> Option<(DatasetFault, Seq<char>)>
        decreases self.frequencies@.len() - i,
    {
        if i < 0 || i >= self.frequencies@.len() {
            None
        } else if self.frequencies_record_fault(self.frequencies@[i]) is Some {
            self.frequencies_record_fault(self.frequencies@[i])
        } else {
            self.frequencies_fault_from(i + 1)
        }
    }

    /// The value and record that the first unresolved reference of one
    /// record of frequencies is reported with.
    pub open spec fn frequencies_record_payload(&self, r: Frequency) -> Option<(Seq<char>, Seq<Schema>)> {
        if !has_key(self.trips@, r.trip_id.0@) {
            Some((r.trip_id.0@, seq![Schema::Frequency(r)]))
        } else {
            None
        }
    }

    /// The payload of the first record of frequencies at or after `i` whose
    /// references do not resolve.
    pub open spec fn frequencies_payload_from(&self, i: int) -> Option<(Seq<char>, Seq<Schema>)>
        decreases self.frequencies@.len() - i,
    {
        if i < 0 || i >= self.frequencies@.len() {
            None
        } else if self.frequencies_record_fault(self.frequencies@[i]) is Some {
            self.frequencies_record_payload(self.frequencies@[i])
        } else {
            self.frequencies_payload_from(i + 1)
        }
    }

    /// Every frequency names a known trip.
    pub open spec fn frequencies_ok(&self) -> bool {
        forall|i: int|
            0 <= i < self.frequencies@.len() ==> (#[trigger] self.frequencies_record_fault(self.frequencies@[i])) is None
    }

    /// Checks that the references of frequencies resolve, and reports the first
    /// that does not.
    pub fn check_frequencies(&self) -> (r: Result<(), Error>)
        ensures
            dataset_outcome(r, self.frequencies_ok()),
            reports_dataset_fault(r, self.frequencies_fault_from(0)),
            carries_payload(r, self.frequencies_payload_from(0)),
    {
        let mut i: usize = 0;
        while i < self.frequencies.len()
            invariant
                0 <= i <= self.frequencies@.len(),
                forall|k: int| 0 <= k < i ==> (#[trigger] self.frequencies_record_fault(self.frequencies@[k])) is None,
                self.frequencies_fault_from(0) == self.frequencies_fault_from(i as int),
                self.frequencies_payload_from(0) == self.frequencies_payload_from(i as int),
            decreases self.frequencies@.len() - i,
        {
            let rec = &self.frequencies[i];
            if !contains_key(&self.trips, &rec.trip_id.0) {
                return Err(
                    dataset_error(
                        DatasetFault::ForeignKeyNotFound,
                        "trip_id",
                        rec.trip_id.0.clone(),
                        "trips.txt",
                        one(Schema::Frequency(rec.copy())),
                    ),
                );
            }
            i += 1;
        }
        Ok(())
    }

    /// The first reference of one record of transfers that does not resolve.
    pub open spec fn transfers_record_fault(&self, r: Transfer) -> Option<(DatasetFault, Seq<char>)> {
        if r.from_stop_id is Some && !has_key(self.stops@, r.from_stop_id.unwrap().0@) {
            Some((DatasetFault::ForeignKeyNotFound, "from_stop_id"@))
        } else if r.to_stop_id is Some && !has_key(self.stops@, r.to_stop_id.unwrap().0@) {
            Some((DatasetFault::ForeignKeyNotFound, "to_stop_id"@))
        } else if r.from_route_id is Some && !has_key(self.routes@, r.from_route_id.unwrap().0@) {
            Some((DatasetFault::ForeignKeyNotFound, "from_route_id"@))
        } else if r.to_route_id is Some && !has_key(self.routes@, r.to_route_id.unwrap().0@) {
            Some((DatasetFault::ForeignKeyNotFound, "to_route_id"@))
        } else if r.from_trip_id is Some && !has_key(self.trips@, r.from_trip_id.unwrap().0@) {
            Some((DatasetFault::ForeignKeyNotFound, "from_trip_id"@))
        } else if r.to_trip_id is Some && !has_key(self.trips@, r.to_trip_id.unwrap().0@) {
            Some((DatasetFault::ForeignKeyNotFound, "to_trip_id"@))
        } else {
            None
        }
    }

    /// The fault of the first record of transfers at or after `i` whose
    /// references do not resolve.
    pub open spec fn transfers_fault_from(&self, i: int) -> Option<(DatasetFault, Seq<char>)>
        decreases self.transfers@.len() - i,
    {
        if i < 0 || i >= self.transfers@.len() {
            None
        } else if self.transfers_record_fault(self.transfers@[i]) is Some {
            self.transfers_record_fault(self.transfers@[i])
        } else {
            self.transfers_fault_from(i + 1)
        }
    }

    /// The value and record that the first unresolved reference of one
    /// record of transfers is reported with.
    pub open spec fn transfers_record_payload(&self, r: Transfer) -> Option<(Seq<char>, Seq<Schema>)> {
        if r.from_stop_id is Some && !has_key(self.stops@, r.from_stop_id.unwrap().0@) {
            Some((r.from_stop_id.unwrap().0@, seq![Schema::Transfer(r)]))
        } else if r.to_stop_id is Some && !has_key(self.stops@, r.to_stop_id.unwrap().0@) {
            Some((r.to_stop_id.unwrap().0@, seq![Schema::Transfer(r)]))
        } else if r.from_route_id is Some && !has_key(self.routes@, r.from_route_id.unwrap().0@) {
            Some((r.from_route_id.unwrap().0@, seq![Schema::Transfer(r)]))
        } else if r.to_route_id is Some && !has_key(self.routes@, r.to_route_id.unwrap().0@) {
            Some((r.to_route_id.unwrap().0@, seq![Schema::Transfer(r)]))
        } else if r.from_trip_id is Some && !has_key(self.trips@, r.from_trip_id.unwrap().0@) {
            Some((r.from_trip_id.unwrap().0@, seq![Schema::Transfer(r)]))
        } else if r.to_trip_id is Some && !has_key(self.trips@, r.to_trip_id.unwrap().0@) {
            Some((r.to_trip_id.unwrap().0@, seq![Schema::Transfer(r)]))
        } else {
            None
        }
    }

    /// The payload of the first record of transfers at or after `i` whose
    /// references do not resolve.
    pub open spec fn transfers_payload_from(&self, i: int) -> Option<(Seq<char>, Seq<Schema>)>
        decreases self.transfers@.len() - i,
    {
        if i < 0 || i >= self.transfers@.len() {
            None
        } else if self.transfers_record_fault(self.transfers@[i]) is Some {
            self.transfers_record_payload(self.transfers@[i])
        } else {
            self.transfers_payload_from(i + 1)
        }
    }

    /// Every transfer names known stops, routes and trips.
    pub open spec fn transfers_ok(&self) -> bool {
        forall|i: int|
            0 <= i < self.transfers@.len() ==> (#[trigger] self.transfers_record_fault(self.transfers@[i])) is None
    }

    /// Checks that the references of transfers resolve, and reports the first
    /// that does not.
    pub fn check_transfers(&self) -> (r: Result<(), Error>)
        ensures
            dataset_outcome(r, self.transfers_ok()),
            reports_dataset_fault(r, self.transfers_fault_from(0)),
            carries_payload(r, self.transfers_payload_from(0)),
    {
        let mut i: usize = 0;
        while i < self.transfers.len()
            invariant
                0 <= i <= self.transfers@.len(),
                forall|k: int| 0 <= k < i ==> (#[trigger] self.transfers_record_fault(self.transfers@[k])) is None,
                self.transfers_fault_from(0) == self.transfers_fault_from(i as int),
                self.transfers_payload_from(0) == self.transfers_payload_from(i as int),
            decreases self.transfers@.len() - i,
        {
            let rec = &self.transfers[i];
            if let Some(x) = &rec.from_stop_id {
                if !contains_key(&self.stops, &x.0) {
                    return Err(
                        dataset_error(
                            DatasetFault::ForeignKeyNotFound,
                            "from_stop_id",
                            x.0.clone(),
                            "stops.txt",
                            one(Schema::Transfer(rec.copy())),
                        ),
                    );
                }
            }
            if let Some(x) = &rec.to_stop_id {
                if !contains_key(&self.stops, &x.0) {
                    return Err(
                        dataset_error(
                            DatasetFault::ForeignKeyNotFound,
                            "to_stop_id",
                            x.0.clone(),
                            "stops.txt",
                            one(Schema::Transfer(rec.copy())),
                        ),
                    );
                }
            }
            if let Some(x) = &rec.from_route_id {
                if !contains_key(&self.routes, &x.0) {
                    return Err(
                        dataset_error(
                            DatasetFault::ForeignKeyNotFound,
                            "from_route_id",
                            x.0.clone(),
                            "routes.txt",
                            one(Schema::Transfer(rec.copy())),
                        ),
                    );
                }
            }
            if let Some(x) = &rec.to_route_id {
                if !contains_key(&self.routes, &x.0) {
                    return Err(
                        dataset_error(
                            DatasetFault::ForeignKeyNotFound,
                            "to_route_id",
                            x.0.clone(),
                            "routes.txt",
                            one(Schema::Transfer(rec.copy())),
                        ),
                    );
                }
            }
            if let Some(x) = &rec.from_trip_id {
                if !contains_key(&self.trips, &x.0) {
                    return Err(
                        dataset_error(
                            DatasetFault::ForeignKeyNotFound,
                            "from_trip_id",
                            x.0.clone(),
                            "trips.txt",
                            one(Schema::Transfer(rec.copy())),
                        ),
                    );
                }
            }
            if let Some(x) = &rec.to_trip_id {
                if !contains_key(&self.trips, &x.0) {
                    return Err(
                        dataset_error(
                            DatasetFault::ForeignKeyNotFound,
                            "to_trip_id",
                            x.0.clone(),
                            "trips.txt",
                            one(Schema::Transfer(rec.copy())),
                        ),
                    );
                }
            }
            i += 1;
        }
        Ok(())
    }

    /// The first reference of one record of location_groups_stops that does not resolve.
    pub open spec fn location_groups_stops_record_fault(&self, r: LocationGroupStop) -> Option<(DatasetFault, Seq<char>)> {
        if !has_key(self.location_groups@, r.location_group_id.0@) {
            Some((DatasetFault::ForeignKeyNotFound, "location_group_id"@))
        } else if !has_key(self.stops@, r.stop_id.0@) {
            Some((DatasetFault::ForeignKeyNotFound, "stop_id"@))
        } else {
            None
        }
    }

    /// The fault of the first record of location_groups_stops at or after `i` whose
    /// references do not resolve.
    pub open spec fn location_groups_stops_fault_from(&self, i: int) -> Option<(DatasetFault, Seq<char>)>
        decreases self.location_groups_stops@.len() - i,
    {
        if i < 0 || i >= self.location_groups_stops@.len() {
            None
        } else if self.location_groups_stops_record_fault(self.location_groups_stops@[i]) is Some {
            self.location_groups_stops_record_fault(self.location_groups_stops@[i])
        } else {
            self.location_groups_stops_fault_from(i + 1)
        }
    }

    /// The value and record that the first unresolved reference of one
    /// record of location_groups_stops is reported with.
    pub open spec fn location_groups_stops_record_payload(&self, r: LocationGroupStop) -> Option<(Seq<char>, Seq<Schema>)> {
        if !has_key(self.location_groups@, r.location_group_id.0@) {
            Some((r.location_group_id.0@, seq![Schema::LocationGroupStop(r)]))
        } else if !has_key(self.stops@, r.stop_id.0@) {
            Some((r.stop_id.0@, seq![Schema::LocationGroupStop(r)]))
        } else {
            None
        }
    }

    /// The payload of the first record of location_groups_stops at or after `i` whose
    /// references do not resolve.
    pub open spec fn location_groups_stops_payload_from(&self, i: int) -> Option<(Seq<char>, Seq<Schema>)>
        decreases self.location_groups_stops@.len() - i,
    {
        if i < 0 || i >= self.location_groups_stops@.len() {
            None
        } else if self.location_groups_stops_record_fault(self.location_groups_stops@[i]) is Some {
            self.location_groups_stops_record_payload(self.location_groups_stops@[i])
        } else {
            self.location_groups_stops_payload_from(i + 1)
        }
    }

    /// Every assignment of a stop to a location group names a known group and stop.
    pub open spec fn location_groups_stops_ok(&self) -> bool {
        forall|i: int|
            0 <= i < self.location_groups_stops@.len() ==> (#[trigger] self.location_groups_stops_record_fault(self.location_groups_stops@[i])) is None
    }

    /// Checks that the references of location_groups_stops resolve, and reports the first
    /// that does not.
    pub fn check_location_groups_stops(&self) -> (r: Result<(), Error>)
        ensures
            dataset_outcome(r, self.location_groups_stops_ok()),
            reports_dataset_fault(r, self.location_groups_stops_fault_from(0)),
            carries_payload(r, self.location_groups_stops_payload_from(0)),
    {
        let mut i: usize = 0;
        while i < self.location_groups_stops.len()
            invariant
                0 <= i <= self.location_groups_stops@.len(),
                forall|k: int| 0 <= k < i ==> (#[trigger] self.location_groups_stops_record_fault(self.location_groups_stops@[k])) is None,
                self.location_groups_stops_fault_from(0) == self.location_groups_stops_fault_from(i as int),
                self.location_groups_stops_payload_from(0) == self.location_groups_stops_payload_from(i as int),
            decreases self.location_groups_stops@.len() - i,
        {
            let rec = &self.location_groups_stops[i];
            if !contains_key(&self.location_groups, &rec.location_group_id.0) {
                return Err(
                    dataset_error(
                        DatasetFault::ForeignKeyNotFound,
                        "location_group_id",
                        rec.location_group_id.0.clone(),
                        "location_groups.txt",
                        one(Schema::LocationGroupStop(rec.copy())),
                    ),
                );
            }
            if !contains_key(&self.stops, &rec.stop_id.0) {
                return Err(
                    dataset_error(
                        DatasetFault::ForeignKeyNotFound,
                        "stop_id",
                        rec.stop_id.0.clone(),
                        "stops.txt",
                        one(Schema::LocationGroupStop(rec.copy())),
                    ),
                );
            }
            i += 1;
        }
        Ok(())
    }

    /// The first reference of one record of booking_rules that does not resolve.
    pub open spec fn booking_rules_record_fault(&self, r: BookingRule) -> Option<(DatasetFault, Seq<char>)> {
        if r.prior_notice_service_id is Some && !self.has_service(r.prior_notice_service_id.unwrap().0@) {
            Some((DatasetFault::ForeignKeyNotFound, "prior_notice_service_id"@))
        } else {
            None
        }
    }

    /// The fault of the first record of booking_rules at or after `i` whose
    /// references do not resolve.
    pub open spec fn booking_rules_fault_from(&self, i: int) -> Option<(DatasetFault, Seq<char>)>
        decreases self.booking_rules@.len() - i,
    {
        if i < 0 || i >= self.booking_rules@.len() {
            None
        } else if self.booking_rules_record_fault(self.booking_rules@[i]) is Some {
            self.booking_rules_record_fault(self.booking_rules@[i])
        } else {
            self.booking_rules_fault_from(i + 1)
        }
    }

    /// The value and record that the first unresolved reference of one
    /// record of booking_rules is reported with.
    pub open spec fn booking_rules_record_payload(&self, r: BookingRule) -> Option<(Seq<char>, Seq<Schema>)> {
        if r.prior_notice_service_id is Some && !self.has_service(r.prior_notice_service_id.unwrap().0@) {
            Some((r.prior_notice_service_id.unwrap().0@, seq![Schema::BookingRule(r)]))
        } else {
            None
        }
    }

    /// The payload of the first record of booking_rules at or after `i` whose
    /// references do not resolve.
    pub open spec fn booking_rules_payload_from(&self, i: int) -> Option<(Seq<char>, Seq<Schema>)>
        decreases self.booking_rules@.len() - i,
    {
        if i < 0 || i >= self.booking_rules@.len() {
            None
        } else if self.booking_rules_record_fault(self.booking_rules@[i]) is Some {
            self.booking_rules_record_payload(self.booking_rules@[i])
        } else {
            self.booking_rules_payload_from(i + 1)
        }
    }

    /// Every booking rule names a known service for prior notice, if any.
    pub open spec fn booking_rules_ok(&self) -> bool {
        forall|i: int|
            0 <= i < self.booking_rules@.len() ==> (#[trigger] self.booking_rules_record_fault(self.booking_rules@[i])) is None
    }

    /// Checks that the references of booking_rules resolve, and reports the first
    /// that does not.
    pub fn check_booking_rules(&self) -> (r: Result<(), Error>)
        ensures
            dataset_outcome(r, self.booking_rules_ok()),
            reports_dataset_fault(r, self.booking_rules_fault_from(0)),
            carries_payload(r, self.booking_rules_payload_from(0)),
    {
        let mut i: usize = 0;
        while i < self.booking_rules.len()
            invariant
                0 <= i <= self.booking_rules@.len(),
                forall|k: int| 0 <= k < i ==> (#[trigger] self.booking_rules_record_fault(self.booking_rules@[k])) is None,
                self.booking_rules_fault_from(0) == self.booking_rules_fault_from(i as int),
                self.booking_rules_payload_from(0) == self.booking_rules_payload_from(i as int),
            decreases self.booking_rules@.len() - i,
        {
            let rec = &self.booking_rules[i];
            if let Some(x) = &rec.prior_notice_service_id {
                if !self.service_exists(&x.0) {
                    return Err(
                        dataset_error(
                            DatasetFault::ForeignKeyNotFound,
                            "prior_notice_service_id",
                            x.0.clone(),
                            "calendar.txt or calendar_dates.txt",
                            one(Schema::BookingRule(rec.copy())),
                        ),
                    );
                }
            }
            i += 1;
        }
        Ok(())
    }

    /// The first reference of one record of attributions that does not resolve.
    pub open spec fn attributions_record_fault(&self, r: Attribution) -> Option<(DatasetFault, Seq<char>)> {
        if r.agency_id is Some && !has_key(self.agencies@, r.agency_id.unwrap().0@) {
            Some((DatasetFault::ForeignKeyNotFound, "agency_id"@))
        } else if r.route_id is Some && !has_key(self.routes@, r.route_id.unwrap().0@) {
            Some((DatasetFault::ForeignKeyNotFound, "route_id"@))
        } else if r.trip_id is Some && !has_key(self.trips@, r.trip_id.unwrap().0@) {
            Some((DatasetFault::ForeignKeyNotFound, "trip_id"@))
        } else {
            None
        }
    }

    /// The fault of the first record of attributions at or after `i` whose
    /// references do not resolve.
    pub open spec fn attributions_fault_from(&self, i: int) -> Option<(DatasetFault, Seq<char>)>
        decreases self.attributions@.len() - i,
    {
        if i < 0 || i >= self.attributions@.len() {
            None
        } else if self.attributions_record_fault(self.attributions@[i]) is Some {
            self.attributions_record_fault(self.attributions@[i])
        } else {
            self.attributions_fault_from(i + 1)
        }
    }

    /// The value and record that the first unresolved reference of one
    /// record of attributions is reported with.
    pub open spec fn attributions_record_payload(&self, r: Attribution) -> Option<(Seq<char>, Seq<Schema>)> {
        if r.agency_id is Some && !has_key(self.agencies@, r.agency_id.unwrap().0@) {
            Some((r.agency_id.unwrap().0@, seq![Schema::Attribution(r)]))
        } else if r.route_id is Some && !has_key(self.routes@, r.route_id.unwrap().0@) {
            Some((r.route_id.unwrap().0@, seq![Schema::Attribution(r)]))
        } else if r.trip_id is Some && !has_key(self.trips@, r.trip_id.unwrap().0@) {
            Some((r.trip_id.unwrap().0@, seq![Schema::Attribution(r)]))
        } else {
            None
        }
    }

    /// The payload of the first record of attributions at or after `i` whose
    /// references do not resolve.
    pub open spec fn attributions_payload_from(&self, i: int) -> Option<(Seq<char>, Seq<Schema>)>
        decreases self.attributions@.len() - i,
    {
        if i < 0 || i >= self.attributions@.len() {
            None
        } else if self.attributions_record_fault(self.attributions@[i]) is Some {
            self.attributions_record_payload(self.attributions@[i])
        } else {
            self.attributions_payload_from(i + 1)
        }
    }

    /// Every attribution names known agencies, routes and trips.
    pub open spec fn attributions_ok(&self) -> bool {
        forall|i: int|
            0 <= i < self.attributions@.len() ==> (#[trigger] self.attributions_record_fault(self.attributions@[i])) is None
    }

    /// Checks that the references of attributions resolve, and reports the first
    /// that does not.
    pub fn check_attributions(&self) -> (r: Result<(), Error>)
        ensures
            dataset_outcome(r, self.attributions_ok()),
            reports_dataset_fault(r, self.attributions_fault_from(0)),
            carries_payload(r, self.attributions_payload_from(0)),
    {
        let mut i: usize = 0;
        while i < self.attributions.len()
            invariant
                0 <= i <= self.attributions@.len(),
                forall|k: int| 0 <= k < i ==> (#[trigger] self.attributions_record_fault(self.attributions@[k])) is None,
                self.attributions_fault_from(0) == self.attributions_fault_from(i as int),
                self.attributions_payload_from(0) == self.attributions_payload_from(i as int),
            decreases self.attributions@.len() - i,
        {
            let rec = &self.attributions[i];
            if let Some(x) = &rec.agency_id {
                if !contains_key(&self.agencies, &x.0) {
                    return Err(
                        dataset_error(
                            DatasetFault::ForeignKeyNotFound,
                            "agency_id",
                            x.0.clone(),
                            "agency.txt",
                            one(Schema::Attribution(rec.copy())),
                        ),
                    );
                }
            }
            if let Some(x) = &rec.route_id {
                if !contains_key(&self.routes, &x.0) {
                    return Err(
                        dataset_error(
                            DatasetFault::ForeignKeyNotFound,
                            "route_id",
                            x.0.clone(),
                            "routes.txt",
                            one(Schema::Attribution(rec.copy())),
                        ),
                    );
                }
            }
            if let Some(x) = &rec.trip_id {
                if !contains_key(&self.trips, &x.0) {
                    return Err(
                        dataset_error(
                            DatasetFault::ForeignKeyNotFound,
                            "trip_id",
                            x.0.clone(),
                            "trips.txt",
                            one(Schema::Attribution(rec.copy())),
                        ),
                    );
                }
            }
            i += 1;
        }
        Ok(())
    }

}

} // verus!
