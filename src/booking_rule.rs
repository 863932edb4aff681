//! Booking rules for rider-requested services.
use vstd::prelude::*;

use crate::error::{carries_record, reports_schema_fault, schema_error, Error, SchemaFault};
use crate::ids::{BookingRuleId, CalendarServiceId};
use crate::schemas::Schema;
use crate::values::NaiveServiceTime;

verus! {

/// How far ahead a booking must be made.
#[derive(Clone, Copy, Debug, PartialEq, Eq, Hash, Structural)]
pub enum BookingType {
    /// Booked in real time.
    RealTime,
    /// Booked the same day, with notice.
    SameDayWithNotice,
    /// Booked one or more days ahead.
    PriorDaysWithNotice,
}

impl BookingType {
    /// The value with the given code (0 to 2), if any.
    pub fn from_code(code: u8) -> (r: Option<BookingType>)
        ensures
            code == 0 ==> r == Some(BookingType::RealTime),
            code == 1 ==> r == Some(BookingType::SameDayWithNotice),
            code == 2 ==> r == Some(BookingType::PriorDaysWithNotice),
            (code > 2) ==> r is None,
    {
        if code == 0 {
            Some(BookingType::RealTime)
        } else if code == 1 {
            Some(BookingType::SameDayWithNotice)
        } else if code == 2 {
            Some(BookingType::PriorDaysWithNotice)
        } else {
            None
        }
    }
}

/// Booking information for rider-requested services.
#[derive(Clone, Debug)]
pub struct BookingRule {
    pub booking_rule_id: BookingRuleId,
    pub booking_type: BookingType,
    /// In minutes.
    pub prior_notice_duration_min: Option<u64>,
    /// In minutes.
    pub prior_notice_duration_max: Option<u64>,
    pub prior_notice_last_day: Option<u32>,
    pub prior_notice_last_time: Option<NaiveServiceTime>,
    pub prior_notice_start_day: Option<u32>,
    pub prior_notice_start_time: Option<NaiveServiceTime>,
    pub prior_notice_service_id: Option<CalendarServiceId>,
    pub message: Option<String>,
    pub pickup_message: Option<String>,
    pub drop_off_message: Option<String>,
    pub phone_number: Option<String>,
    pub info_url: Option<String>,
    pub booking_url: Option<String>,
}

impl BookingRule {
    /// The first rule of the row that the record breaks.
    pub open spec fn row_fault(&self) -> Option<(SchemaFault, Seq<char>)> {
        if self.booking_rule_id.0@.len() == 0 {
            Some((SchemaFault::Missing, "booking_rule_id"@))
        } else if self.booking_type == BookingType::SameDayWithNotice && self.prior_notice_duration_min is None {
            Some((SchemaFault::Missing, "prior_notice_duration_min"@))
        } else if self.booking_type != BookingType::SameDayWithNotice && self.prior_notice_duration_min is Some {
            Some((SchemaFault::Forbidden, "prior_notice_duration_min"@))
        } else if (self.booking_type == BookingType::RealTime || self.booking_type == BookingType::PriorDaysWithNotice) && self.prior_notice_duration_max is Some {
            Some((SchemaFault::Forbidden, "prior_notice_duration_max"@))
        } else if self.booking_type == BookingType::PriorDaysWithNotice && self.prior_notice_last_day is None {
            Some((SchemaFault::Missing, "prior_notice_last_day"@))
        } else if self.booking_type != BookingType::PriorDaysWithNotice && self.prior_notice_last_day is Some {
            Some((SchemaFault::Forbidden, "prior_notice_last_day"@))
        } else if self.prior_notice_last_day is Some && self.prior_notice_last_time is None {
            Some((SchemaFault::Missing, "prior_notice_last_time"@))
        } else if self.prior_notice_last_day is None && self.prior_notice_last_time is Some {
            Some((SchemaFault::Forbidden, "prior_notice_last_time"@))
        } else if self.booking_type == BookingType::RealTime && self.prior_notice_start_day is Some {
            Some((SchemaFault::Forbidden, "prior_notice_start_day"@))
        } else if self.booking_type == BookingType::SameDayWithNotice && self.prior_notice_duration_max is Some
            && self.prior_notice_start_day is Some {
            Some((SchemaFault::Forbidden, "prior_notice_start_day"@))
        } else if self.prior_notice_start_day is Some && self.prior_notice_start_time is None {
            Some((SchemaFault::Missing, "prior_notice_start_time"@))
        } else if self.prior_notice_start_day is None && self.prior_notice_start_time is Some {
            Some((SchemaFault::Forbidden, "prior_notice_start_time"@))
        } else if self.booking_type != BookingType::PriorDaysWithNotice && self.prior_notice_service_id is Some {
            Some((SchemaFault::Forbidden, "prior_notice_service_id"@))
        } else {
            None
        }
    }

    /// Checks the rules of the row: which notice fields each booking type
    /// requires or forbids, that a same-day booking with a longest notice has
    /// no start day, and that each notice day comes with its time.
    pub fn validate(&self) -> (r: Result<(), Error>)
        ensures
            reports_schema_fault(r, self.row_fault()),
            carries_record(r, Schema::BookingRule(*self)),
    {
        if self.booking_rule_id.is_empty() {
            return Err(
                schema_error(
                    SchemaFault::Missing,
                    "booking_rule_id",
                    "can never be empty",
                    Schema::BookingRule(self.copy()),
                ),
            );
        }
        if self.booking_type == BookingType::SameDayWithNotice && self.prior_notice_duration_min.is_none() {
            return Err(
                schema_error(
                    SchemaFault::Missing,
                    "prior_notice_duration_min",
                    "required when booking_type is SameDayWithNotice",
                    Schema::BookingRule(self.copy()),
                ),
            );
        }
        if self.booking_type != BookingType::SameDayWithNotice && self.prior_notice_duration_min.is_some() {
            return Err(
                schema_error(
                    SchemaFault::Forbidden,
                    "prior_notice_duration_min",
                    "should not be defined when booking_type is not SameDayWithNotice",
                    Schema::BookingRule(self.copy()),
                ),
            );
        }
        if (self.booking_type == BookingType::RealTime || self.booking_type == BookingType::PriorDaysWithNotice) && self.prior_notice_duration_max.is_some() {
            return Err(
                schema_error(
                    SchemaFault::Forbidden,
                    "prior_notice_duration_max",
                    "should not be defined when booking_type is RealTime or PriorDaysWithNotice",
                    Schema::BookingRule(self.copy()),
                ),
            );
        }
        if self.booking_type == BookingType::PriorDaysWithNotice && self.prior_notice_last_day.is_none() {
            return Err(
                schema_error(
                    SchemaFault::Missing,
                    "prior_notice_last_day",
                    "required when booking_type is PriorDaysWithNotice",
                    Schema::BookingRule(self.copy()),
                ),
            );
        }
        if self.booking_type != BookingType::PriorDaysWithNotice && self.prior_notice_last_day.is_some() {
            return Err(
                schema_error(
                    SchemaFault::Forbidden,
                    "prior_notice_last_day",
                    "should not be defined when booking_type is not PriorDaysWithNotice",
                    Schema::BookingRule(self.copy()),
                ),
            );
        }
        if self.prior_notice_last_day.is_some() && self.prior_notice_last_time.is_none() {
            return Err(
                schema_error(
                    SchemaFault::Missing,
                    "prior_notice_last_time",
                    "required when prior_notice_last_day is defined",
                    Schema::BookingRule(self.copy()),
                ),
            );
        }
        if self.prior_notice_last_day.is_none() && self.prior_notice_last_time.is_some() {
            return Err(
                schema_error(
                    SchemaFault::Forbidden,
                    "prior_notice_last_time",
                    "should not be defined when prior_notice_last_day is not defined",
                    Schema::BookingRule(self.copy()),
                ),
            );
        }
        if self.booking_type == BookingType::RealTime && self.prior_notice_start_day.is_some() {
            return Err(
                schema_error(
                    SchemaFault::Forbidden,
                    "prior_notice_start_day",
                    "should not be defined when booking_type is RealTime",
                    Schema::BookingRule(self.copy()),
                ),
            );
        }
        if self.booking_type == BookingType::SameDayWithNotice && self.prior_notice_duration_max.is_some()
            && self.prior_notice_start_day.is_some() {
            return Err(
                schema_error(
                    SchemaFault::Forbidden,
                    "prior_notice_start_day",
                    "should not be defined when booking_type is SameDayWithNotice and prior_notice_duration_max is defined",
                    Schema::BookingRule(self.copy()),
                ),
            );
        }
        if self.prior_notice_start_day.is_some() && self.prior_notice_start_time.is_none() {
            return Err(
                schema_error(
                    SchemaFault::Missing,
                    "prior_notice_start_time",
                    "required when prior_notice_start_day is defined",
                    Schema::BookingRule(self.copy()),
                ),
            );
        }
        if self.prior_notice_start_day.is_none() && self.prior_notice_start_time.is_some() {
            return Err(
                schema_error(
                    SchemaFault::Forbidden,
                    "prior_notice_start_time",
                    "should not be defined when prior_notice_start_day is not defined",
                    Schema::BookingRule(self.copy()),
                ),
            );
        }
        if self.booking_type != BookingType::PriorDaysWithNotice && self.prior_notice_service_id.is_some() {
            return Err(
                schema_error(
                    SchemaFault::Forbidden,
                    "prior_notice_service_id",
                    "should not be defined when booking_type is not PriorDaysWithNotice",
                    Schema::BookingRule(self.copy()),
                ),
            );
        }
        Ok(())
    }
}

} // verus!
