//! Shapes (the paths that vehicles travel) and headway-based frequencies.
use vstd::prelude::*;

use crate::error::{carries_record, reports_schema_fault, schema_error, Error, SchemaFault};
use crate::ids::{ShapeId, TripId};
use crate::schemas::Schema;
use crate::values::{GtfsCoord, Measure, NaiveServiceTime, SERVICE_DAY_LIMIT};

verus! {

/// Whether a frequency's trips run at exact times.
#[derive(Clone, Copy, Debug, PartialEq, Eq, Hash, Structural)]
pub enum ExactTimes {
    Approximate,
    Exact,
}

impl ExactTimes {
    /// The value of a cell: absent or 0 means approximate, 1 exact; any other
    /// code is not a value.
    pub fn from_code(code: Option<u8>) -> (r: Option<ExactTimes>)
        ensures
            (code is None || code == Some(0u8)) ==> r == Some(ExactTimes::Approximate),
            code == Some(1u8) ==> r == Some(ExactTimes::Exact),
            (code is Some && code.unwrap() > 1) ==> r is None,
    {
        match code {
            None => Some(ExactTimes::Approximate),
            Some(c) => if c == 0 {
                Some(ExactTimes::Approximate)
            } else if c == 1 {
                Some(ExactTimes::Exact)
            } else {
                None
            },
        }
    }
}

/// The time `d` seconds after `t`, held at 47:59:59.
pub open spec fn later_by(t: NaiveServiceTime, d: u64) -> int {
    if t.secs + d < SERVICE_DAY_LIMIT {
        t.secs + d
    } else {
        SERVICE_DAY_LIMIT - 1
    }
}

/// One point of a shape.
#[derive(Clone, Debug)]
pub struct Shape {
    pub shape_id: ShapeId,
    pub shape_pt: GtfsCoord,
    pub shape_pt_sequence: u32,
    /// Distance from the first point; not negative.
    pub shape_dist_traveled: Option<Measure>,
}

impl Shape {
    /// The first rule of the row that the record breaks.
    pub open spec fn row_fault(&self) -> Option<(SchemaFault, Seq<char>)> {
        if self.shape_id.0@.len() == 0 {
            Some((SchemaFault::Missing, "shape_id"@))
        } else if self.shape_dist_traveled is Some && self.shape_dist_traveled.unwrap().spec_is_negative() {
            Some((SchemaFault::Invalid, "shape_dist_traveled"@))
        } else if !self.shape_pt.spec_in_range() {
            Some((SchemaFault::Invalid, "shape_pt"@))
        } else {
            None
        }
    }

    /// Checks the rules of the row.
    pub fn validate(&self) -> (r: Result<(), Error>)
        ensures
            reports_schema_fault(r, self.row_fault()),
            carries_record(r, Schema::Shape(*self)),
    {
        if self.shape_id.is_empty() {
            return Err(
                schema_error(
                    SchemaFault::Missing,
                    "shape_id",
                    "can never be empty",
                    Schema::Shape(self.copy()),
                ),
            );
        }
        if self.shape_dist_traveled.is_some() && self.shape_dist_traveled.unwrap().is_negative() {
            return Err(
                schema_error(
                    SchemaFault::Invalid,
                    "shape_dist_traveled",
                    "must be positive",
                    Schema::Shape(self.copy()),
                ),
            );
        }
        if !self.shape_pt.in_range() {
            return Err(
                schema_error(
                    SchemaFault::Invalid,
                    "shape_pt",
                    "latitude must lie in [-90, 90] and longitude in [-180, 180]",
                    Schema::Shape(self.copy()),
                ),
            );
        }
        Ok(())
    }
}

/// Headway-based service of a trip over a time window.
#[derive(Clone, Debug)]
pub struct Frequency {
    pub trip_id: TripId,
    pub start_time: NaiveServiceTime,
    pub end_time: NaiveServiceTime,
    pub headway_secs: u64,
    pub exact_times: Option<ExactTimes>,
}

impl Frequency {
    /// The first rule of the row that the record breaks.
    pub open spec fn row_fault(&self) -> Option<(SchemaFault, Seq<char>)> {
        if self.trip_id.0@.len() == 0 {
            Some((SchemaFault::Missing, "trip_id"@))
        } else if self.end_time.secs < self.start_time.secs {
            Some((SchemaFault::Invalid, "start_time or end_time"@))
        } else if self.exact_times == Some(ExactTimes::Exact) && later_by(self.start_time, self.headway_secs) >= self.end_time.secs {
            Some((SchemaFault::Invalid, "end_time"@))
        } else {
            None
        }
    }

    /// Checks the rules of the row: a trip, a window that does not end before
    /// it starts, and for exact times a first headway that ends inside it.
    pub fn validate(&self) -> (r: Result<(), Error>)
        ensures
            reports_schema_fault(r, self.row_fault()),
            carries_record(r, Schema::Frequency(*self)),
    {
        if self.trip_id.is_empty() {
            return Err(
                schema_error(
                    SchemaFault::Missing,
                    "trip_id",
                    "can never be empty",
                    Schema::Frequency(self.copy()),
                ),
            );
        }
        if self.end_time.lt(&self.start_time) {
            return Err(
                schema_error(
                    SchemaFault::Invalid,
                    "start_time or end_time",
                    "start_time cannot be greater than end_time",
                    Schema::Frequency(self.copy()),
                ),
            );
        }
        if self.exact_times == Some(ExactTimes::Exact) && !self.start_time.add_secs(self.headway_secs).lt(&self.end_time) {
            return Err(
                schema_error(
                    SchemaFault::Invalid,
                    "end_time",
                    "the last start_time as computed from start_time + headway_secs must be less than end_time",
                    Schema::Frequency(self.copy()),
                ),
            );
        }
        Ok(())
    }
}

} // verus!
