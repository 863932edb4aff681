//! Stop times: when a trip's vehicle arrives at and leaves each location.
use vstd::prelude::*;

use crate::error::{carries_record, reports_schema_fault, schema_error, Error, SchemaFault};
use crate::ids::{LocationGroupId, StopId, TripId};
use crate::schemas::{ContinuousDropOff, ContinuousPickup, Schema};
use crate::values::{Measure, NaiveServiceTime};

verus! {

/// How riders board at a stop.
#[derive(Clone, Copy, Debug, PartialEq, Eq, Hash, Structural)]
pub enum PickupType {
    RegularlyScheduled,
    NoPickupAvailable,
    MustPhoneAgency,
    MustCoordinateWithDriver,
}

impl PickupType {
    /// The value with the given code (0 to 3), if any.
    pub fn from_code(code: u8) -> (r: Option<PickupType>)
        ensures
            code == 0 ==> r == Some(PickupType::RegularlyScheduled),
            code == 1 ==> r == Some(PickupType::NoPickupAvailable),
            code == 2 ==> r == Some(PickupType::MustPhoneAgency),
            code == 3 ==> r == Some(PickupType::MustCoordinateWithDriver),
            (code > 3) ==> r is None,
    {
        if code == 0 {
            Some(PickupType::RegularlyScheduled)
        } else if code == 1 {
            Some(PickupType::NoPickupAvailable)
        } else if code == 2 {
            Some(PickupType::MustPhoneAgency)
        } else if code == 3 {
            Some(PickupType::MustCoordinateWithDriver)
        } else {
            None
        }
    }
}

/// How riders alight at a stop.
#[derive(Clone, Copy, Debug, PartialEq, Eq, Hash, Structural)]
pub enum DropOffType {
    RegularlyScheduled,
    NoDropOffAvailable,
    MustPhoneAgency,
    MustCoordinateWithDriver,
}

impl DropOffType {
    /// The value with the given code (0 to 3), if any.
    pub fn from_code(code: u8) -> (r: Option<DropOffType>)
        ensures
            code == 0 ==> r == Some(DropOffType::RegularlyScheduled),
            code == 1 ==> r == Some(DropOffType::NoDropOffAvailable),
            code == 2 ==> r == Some(DropOffType::MustPhoneAgency),
            code == 3 ==> r == Some(DropOffType::MustCoordinateWithDriver),
            (code > 3) ==> r is None,
    {
        if code == 0 {
            Some(DropOffType::RegularlyScheduled)
        } else if code == 1 {
            Some(DropOffType::NoDropOffAvailable)
        } else if code == 2 {
            Some(DropOffType::MustPhoneAgency)
        } else if code == 3 {
            Some(DropOffType::MustCoordinateWithDriver)
        } else {
            None
        }
    }
}

/// Whether the times of a stop time are exact or approximate.
#[derive(Clone, Copy, Debug, PartialEq, Eq, Hash, Structural)]
pub enum Timepoint {
    Approximate,
    Exact,
}

impl Timepoint {
    /// The value of a cell: absent or 1 means exact, 0 approximate; any other
    /// code is not a value.
    pub fn from_code(code: Option<u8>) -> (r: Option<Timepoint>)
        ensures
            (code is None || code == Some(1u8)) ==> r == Some(Timepoint::Exact),
            code == Some(0u8) ==> r == Some(Timepoint::Approximate),
            (code is Some && code.unwrap() > 1) ==> r is None,
    {
        match code {
            None => Some(Timepoint::Exact),
            Some(c) => if c == 1 {
                Some(Timepoint::Exact)
            } else if c == 0 {
                Some(Timepoint::Approximate)
            } else {
                None
            },
        }
    }
}

/// The arrival at and departure from one location of a trip.
#[derive(Clone, Debug)]
pub struct StopTime {
    pub trip_id: TripId,
    pub arrival_time: Option<NaiveServiceTime>,
    pub departure_time: Option<NaiveServiceTime>,
    /// Exactly one of the stop, the location group and the location is given.
    pub stop_id: Option<StopId>,
    pub location_group_id: Option<LocationGroupId>,
    /// A location of the GeoJSON locations file.
    pub location_id: Option<String>,
    /// Increases along the trip.
    pub stop_sequence: u32,
    pub stop_headsign: Option<String>,
    pub start_pickup_drop_off_window: Option<NaiveServiceTime>,
    pub end_pickup_drop_off_window: Option<NaiveServiceTime>,
    pub pickup_type: Option<PickupType>,
    pub drop_off_type: Option<DropOffType>,
    pub continuous_pickup: Option<ContinuousPickup>,
    pub continuous_drop_off: Option<ContinuousDropOff>,
    /// Distance along the shape; not negative.
    pub shape_dist_traveled: Option<Measure>,
    pub timepoint: Option<Timepoint>,
    pub pickup_booking_rule_id: Option<String>,
    pub drop_off_booking_rule_id: Option<String>,
}

impl StopTime {
    /// The first rule of the row that the record breaks.
    pub open spec fn row_fault(&self) -> Option<(SchemaFault, Seq<char>)> {
        if self.trip_id.0@.len() == 0 {
            Some((SchemaFault::Missing, "trip_id"@))
        } else if self.stop_id is Some && (self.location_group_id is Some || self.location_id is Some) {
            Some((SchemaFault::Forbidden, "location_group_id and/or location_id"@))
        } else if self.location_group_id is Some && self.location_id is Some {
            Some((SchemaFault::Forbidden, "location_group_id or location_id"@))
        } else if self.stop_id is None && self.location_group_id is None && self.location_id is None {
            Some((SchemaFault::Missing, "stop_id, location_group_id, or location_id"@))
        } else if self.shape_dist_traveled is Some && self.shape_dist_traveled.unwrap().spec_is_negative() {
            Some((SchemaFault::Invalid, "shape_dist_traveled"@))
        } else if self.spec_has_window() && (self.arrival_time is Some || self.departure_time is Some) {
            Some((SchemaFault::Forbidden, "arrival_time or departure_time"@))
        } else if !self.spec_has_window() && self.timepoint == Some(Timepoint::Exact) && (self.arrival_time is None || self.departure_time is None) {
            Some((SchemaFault::Missing, "arrival_time or departure_time"@))
        } else if self.spec_has_window() && (self.continuous_pickup is Some || self.continuous_drop_off is Some) {
            Some((SchemaFault::Forbidden, "continuous_pickup or continuous_drop_off"@))
        } else {
            None
        }
    }

    /// A pickup and drop-off window is given.
    pub open spec fn spec_has_window(&self) -> bool {
        self.start_pickup_drop_off_window is Some || self.end_pickup_drop_off_window is Some
    }

    /// The pickup type after defaulting: inside a window a regular or
    /// driver-arranged pickup is cleared; outside one an absent type is
    /// regular.
    pub open spec fn defaulted_pickup(&self) -> Option<PickupType> {
        if self.spec_has_window() {
            if self.pickup_type == Some(PickupType::RegularlyScheduled) || self.pickup_type == Some(
                PickupType::MustCoordinateWithDriver,
            ) {
                None
            } else {
                self.pickup_type
            }
        } else if self.pickup_type is None {
            Some(PickupType::RegularlyScheduled)
        } else {
            self.pickup_type
        }
    }

    /// The record with its pickup and drop-off types set to their defaults,
    /// every other field unchanged.
    pub open spec fn defaulted(&self) -> StopTime {
        StopTime { pickup_type: self.defaulted_pickup(), drop_off_type: self.defaulted_drop_off(), ..*self }
    }

    /// The drop-off type after defaulting: inside a window a regular
    /// drop-off is cleared; outside one an absent type is regular.
    pub open spec fn defaulted_drop_off(&self) -> Option<DropOffType> {
        if self.spec_has_window() {
            if self.drop_off_type == Some(DropOffType::RegularlyScheduled) {
                None
            } else {
                self.drop_off_type
            }
        } else if self.drop_off_type is None {
            Some(DropOffType::RegularlyScheduled)
        } else {
            self.drop_off_type
        }
    }

    /// Checks the rules of the row without changing the record.
    pub fn check(&self) -> (r: Result<(), Error>)
        ensures
            reports_schema_fault(r, self.row_fault()),
            carries_record(r, Schema::StopTime(*self)),
    {
        let window = self.has_window();
        if self.trip_id.is_empty() {
            return Err(
                schema_error(
                    SchemaFault::Missing,
                    "trip_id",
                    "can never be empty",
                    Schema::StopTime(self.copy()),
                ),
            );
        }
        if self.stop_id.is_some() && (self.location_group_id.is_some() || self.location_id.is_some()) {
            return Err(
                schema_error(
                    SchemaFault::Forbidden,
                    "location_group_id and/or location_id",
                    "are not allowed when stop_id is defined",
                    Schema::StopTime(self.copy()),
                ),
            );
        }
        if self.location_group_id.is_some() && self.location_id.is_some() {
            return Err(
                schema_error(
                    SchemaFault::Forbidden,
                    "location_group_id or location_id",
                    "cannot both be defined",
                    Schema::StopTime(self.copy()),
                ),
            );
        }
        if self.stop_id.is_none() && self.location_group_id.is_none() && self.location_id.is_none() {
            return Err(
                schema_error(
                    SchemaFault::Missing,
                    "stop_id, location_group_id, or location_id",
                    "exactly one of them must be defined",
                    Schema::StopTime(self.copy()),
                ),
            );
        }
        if self.shape_dist_traveled.is_some() && self.shape_dist_traveled.unwrap().is_negative() {
            return Err(
                schema_error(
                    SchemaFault::Invalid,
                    "shape_dist_traveled",
                    "must be positive",
                    Schema::StopTime(self.copy()),
                ),
            );
        }
        if window && (self.arrival_time.is_some() || self.departure_time.is_some()) {
            return Err(
                schema_error(
                    SchemaFault::Forbidden,
                    "arrival_time or departure_time",
                    "are not allowed when start_pickup_drop_off_window or end_pickup_drop_off_window is defined",
                    Schema::StopTime(self.copy()),
                ),
            );
        }
        if !window && self.timepoint == Some(Timepoint::Exact) && (self.arrival_time.is_none() || self.departure_time.is_none()) {
            return Err(
                schema_error(
                    SchemaFault::Missing,
                    "arrival_time or departure_time",
                    "because Timepoint is Exact",
                    Schema::StopTime(self.copy()),
                ),
            );
        }
        if window && (self.continuous_pickup.is_some() || self.continuous_drop_off.is_some()) {
            return Err(
                schema_error(
                    SchemaFault::Forbidden,
                    "continuous_pickup or continuous_drop_off",
                    "are not allowed when start_pickup_drop_off_window or end_pickup_drop_off_window is defined",
                    Schema::StopTime(self.copy()),
                ),
            );
        }
        Ok(())
    }

    /// A pickup and drop-off window is given.
    pub fn has_window(&self) -> (r: bool)
        ensures
            r == self.spec_has_window(),
    {
        self.start_pickup_drop_off_window.is_some() || self.end_pickup_drop_off_window.is_some()
    }

    /// Checks the rules of the row and, when they hold, sets the pickup and
    /// drop-off types to their defaults.
    pub fn validate(&mut self) -> (r: Result<(), Error>)
        ensures
            reports_schema_fault(r, old(self).row_fault()),
            carries_record(r, Schema::StopTime(*old(self))),
            r is Ok ==> *final(self) == old(self).defaulted(),
            r is Err ==> *final(self) == *old(self),
    {
        let r = self.check();
        if r.is_err() {
            return r;
        }
        self.apply_defaults();
        r
    }

    /// Sets the pickup and drop-off types to their defaults.
    pub fn apply_defaults(&mut self)
        ensures
            *final(self) == old(self).defaulted(),
    {
        if self.has_window() {
            if self.pickup_type == Some(PickupType::RegularlyScheduled) || self.pickup_type == Some(
                PickupType::MustCoordinateWithDriver,
            ) {
                self.pickup_type = None;
            }
            if self.drop_off_type == Some(DropOffType::RegularlyScheduled) {
                self.drop_off_type = None;
            }
        } else {
            if self.pickup_type.is_none() {
                self.pickup_type = Some(PickupType::RegularlyScheduled);
            }
            if self.drop_off_type.is_none() {
                self.drop_off_type = Some(DropOffType::RegularlyScheduled);
            }
        }
    }
}

} // verus!
