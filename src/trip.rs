//! Trips: sequences of stops served at given times.
use vstd::prelude::*;

use crate::error::{carries_record, reports_schema_fault, schema_error, Error, SchemaFault};
use crate::ids::{CalendarServiceId, RouteId, ShapeId, TripId};
use crate::schemas::Schema;

verus! {

/// The direction of travel of a trip.
#[derive(Clone, Copy, Debug, PartialEq, Eq, Hash, Structural)]
pub enum DirectionId {
    OneDirection,
    OppositeDirection,
}

impl DirectionId {
    /// The value with the given code (0 to 1), if any.
    pub fn from_code(code: u8) -> (r: Option<DirectionId>)
        ensures
            code == 0 ==> r == Some(DirectionId::OneDirection),
            code == 1 ==> r == Some(DirectionId::OppositeDirection),
            (code > 1) ==> r is None,
    {
        if code == 0 {
            Some(DirectionId::OneDirection)
        } else if code == 1 {
            Some(DirectionId::OppositeDirection)
        } else {
            None
        }
    }
}

/// Whether a trip's vehicle takes wheelchairs.
#[derive(Clone, Copy, Debug, PartialEq, Eq, Hash, Structural)]
pub enum WheelchairAccessible {
    NoInformation,
    SomeAccessibility,
    NoAccessibility,
}

impl WheelchairAccessible {
    /// The value of a cell: absent or 0 means no information, 1 and 2 the
    /// others; any other code is not a value.
    pub fn from_code(code: Option<u8>) -> (r: Option<WheelchairAccessible>)
        ensures
            (code is None || code == Some(0u8)) ==> r == Some(WheelchairAccessible::NoInformation),
            code == Some(1u8) ==> r == Some(WheelchairAccessible::SomeAccessibility),
            code == Some(2u8) ==> r == Some(WheelchairAccessible::NoAccessibility),
            (code is Some && code.unwrap() > 2) ==> r is None,
    {
        match code {
            None => Some(WheelchairAccessible::NoInformation),
            Some(c) => if c == 0 {
                Some(WheelchairAccessible::NoInformation)
            } else if c == 1 {
                Some(WheelchairAccessible::SomeAccessibility)
            } else if c == 2 {
                Some(WheelchairAccessible::NoAccessibility)
            } else {
                None
            },
        }
    }
}

/// Whether bikes are allowed on a trip.
#[derive(Clone, Copy, Debug, PartialEq, Eq, Hash, Structural)]
pub enum BikesAllowed {
    NoInformation,
    SomeBikesAllowed,
    NoBikesAllowed,
}

impl BikesAllowed {
    /// The value of a cell: absent or 0 means no information, 1 and 2 the
    /// others; any other code is not a value.
    pub fn from_code(code: Option<u8>) -> (r: Option<BikesAllowed>)
        ensures
            (code is None || code == Some(0u8)) ==> r == Some(BikesAllowed::NoInformation),
            code == Some(1u8) ==> r == Some(BikesAllowed::SomeBikesAllowed),
            code == Some(2u8) ==> r == Some(BikesAllowed::NoBikesAllowed),
            (code is Some && code.unwrap() > 2) ==> r is None,
    {
        match code {
            None => Some(BikesAllowed::NoInformation),
            Some(c) => if c == 0 {
                Some(BikesAllowed::NoInformation)
            } else if c == 1 {
                Some(BikesAllowed::SomeBikesAllowed)
            } else if c == 2 {
                Some(BikesAllowed::NoBikesAllowed)
            } else {
                None
            },
        }
    }
}

/// A trip.
#[derive(Clone, Debug)]
pub struct Trip {
    pub route_id: RouteId,
    pub service_id: CalendarServiceId,
    pub trip_id: TripId,
    pub trip_headsign: Option<String>,
    pub trip_short_name: Option<String>,
    pub direction_id: Option<DirectionId>,
    pub block_id: Option<String>,
    pub shape_id: Option<ShapeId>,
    pub wheelchair_accessible: Option<WheelchairAccessible>,
    pub bikes_allowed: Option<BikesAllowed>,
}

impl Trip {
    /// The first rule of the row that the record breaks.
    pub open spec fn row_fault(&self) -> Option<(SchemaFault, Seq<char>)> {
        if self.route_id.0@.len() == 0 {
            Some((SchemaFault::Missing, "route_id"@))
        } else if self.service_id.0@.len() == 0 {
            Some((SchemaFault::Missing, "service_id"@))
        } else if self.trip_id.0@.len() == 0 {
            Some((SchemaFault::Missing, "trip_id"@))
        } else {
            None
        }
    }

    /// Checks the rules of the row: route, service and trip identifiers are
    /// not empty.
    pub fn validate(&self) -> (r: Result<(), Error>)
        ensures
            reports_schema_fault(r, self.row_fault()),
            carries_record(r, Schema::Trip(*self)),
    {
        if self.route_id.is_empty() {
            return Err(
                schema_error(
                    SchemaFault::Missing,
                    "route_id",
                    "can never be empty",
                    Schema::Trip(self.copy()),
                ),
            );
        }
        if self.service_id.is_empty() {
            return Err(
                schema_error(
                    SchemaFault::Missing,
                    "service_id",
                    "can never be empty",
                    Schema::Trip(self.copy()),
                ),
            );
        }
        if self.trip_id.is_empty() {
            return Err(
                schema_error(
                    SchemaFault::Missing,
                    "trip_id",
                    "can never be empty",
                    Schema::Trip(self.copy()),
                ),
            );
        }
        Ok(())
    }
}

} // verus!
