//! Service calendars: weekly patterns and per-date exceptions.
use vstd::prelude::*;

use crate::error::{carries_record, reports_schema_fault, schema_error, Error, SchemaFault};
use crate::ids::CalendarServiceId;
use crate::schemas::Schema;
use crate::values::GtfsDate;

verus! {

/// Whether service runs on a day of the week.
#[derive(Clone, Copy, Debug, PartialEq, Eq, Hash, Structural)]
pub enum CalendarDayService {
    Available,
    NotAvailable,
}

impl CalendarDayService {
    /// The value with the given code (0 to 1), if any.
    pub fn from_code(code: u8) -> (r: Option<CalendarDayService>)
        ensures
            code == 0 ==> r == Some(CalendarDayService::NotAvailable),
            code == 1 ==> r == Some(CalendarDayService::Available),
            (code > 1) ==> r is None,
    {
        if code == 0 {
            Some(CalendarDayService::NotAvailable)
        } else if code == 1 {
            Some(CalendarDayService::Available)
        } else {
            None
        }
    }
}

/// Whether a calendar date adds or removes service.
#[derive(Clone, Copy, Debug, PartialEq, Eq, Hash, Structural)]
pub enum ExceptionType {
    Added,
    Removed,
}

impl ExceptionType {
    /// The value with the given code (1 to 2), if any.
    pub fn from_code(code: u8) -> (r: Option<ExceptionType>)
        ensures
            code == 1 ==> r == Some(ExceptionType::Added),
            code == 2 ==> r == Some(ExceptionType::Removed),
            (code < 1 || code > 2) ==> r is None,
    {
        if code == 1 {
            Some(ExceptionType::Added)
        } else if code == 2 {
            Some(ExceptionType::Removed)
        } else {
            None
        }
    }
}

/// A weekly service pattern between two dates.
#[derive(Clone, Debug)]
pub struct Calendar {
    pub service_id: CalendarServiceId,
    pub monday: CalendarDayService,
    pub tuesday: CalendarDayService,
    pub wednesday: CalendarDayService,
    pub thursday: CalendarDayService,
    pub friday: CalendarDayService,
    pub saturday: CalendarDayService,
    pub sunday: CalendarDayService,
    pub start_date: GtfsDate,
    pub end_date: GtfsDate,
}

impl Calendar {
    /// The first rule of the row that the record breaks.
    pub open spec fn row_fault(&self) -> Option<(SchemaFault, Seq<char>)> {
        if self.service_id.0@.len() == 0 {
            Some((SchemaFault::Missing, "service_id"@))
        } else if !self.start_date.spec_le(&self.end_date) {
            Some((SchemaFault::Invalid, "start_date"@))
        } else {
            None
        }
    }

    /// Checks the rules of the row: an identifier, and a start date no later
    /// than the end date.
    pub fn validate(&self) -> (r: Result<(), Error>)
        ensures
            reports_schema_fault(r, self.row_fault()),
            carries_record(r, Schema::Calendar(*self)),
    {
        if self.service_id.is_empty() {
            return Err(
                schema_error(
                    SchemaFault::Missing,
                    "service_id",
                    "can never be empty",
                    Schema::Calendar(self.copy()),
                ),
            );
        }
        if !self.start_date.le(&self.end_date) {
            return Err(
                schema_error(
                    SchemaFault::Invalid,
                    "start_date",
                    "must be before end_date",
                    Schema::Calendar(self.copy()),
                ),
            );
        }
        Ok(())
    }
}

/// An exception to a service pattern on one date.
#[derive(Clone, Debug)]
pub struct CalendarDate {
    pub service_id: CalendarServiceId,
    pub date: GtfsDate,
    pub exception_type: ExceptionType,
}

impl CalendarDate {
    /// The first rule of the row that the record breaks.
    pub open spec fn row_fault(&self) -> Option<(SchemaFault, Seq<char>)> {
        if self.service_id.0@.len() == 0 {
            Some((SchemaFault::Missing, "service_id"@))
        } else {
            None
        }
    }

    /// Checks the rules of the row.
    pub fn validate(&self) -> (r: Result<(), Error>)
        ensures
            reports_schema_fault(r, self.row_fault()),
            carries_record(r, Schema::CalendarDate(*self)),
    {
        if self.service_id.is_empty() {
            return Err(
                schema_error(
                    SchemaFault::Missing,
                    "service_id",
                    "can never be empty",
                    Schema::CalendarDate(self.copy()),
                ),
            );
        }
        Ok(())
    }
}

} // verus!
