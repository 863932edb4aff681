//! Dataset metadata and attributions.
use vstd::prelude::*;

use crate::error::{carries_record, reports_schema_fault, schema_error, Error, SchemaFault};
use crate::ids::{AgencyId, AttributionId, RouteId, TripId};
use crate::schemas::Schema;
use crate::values::GtfsDate;

verus! {

/// Metadata of the dataset.
#[derive(Clone, Debug)]
pub struct FeedInfo {
    pub feed_publisher_name: String,
    pub feed_publisher_url: String,
    /// A language tag; `mul` when the text is in several languages.
    pub feed_lang: String,
    pub default_lang: Option<String>,
    pub feed_start_date: Option<GtfsDate>,
    pub feed_end_date: Option<GtfsDate>,
    pub feed_version: Option<String>,
    pub feed_contact_email: Option<String>,
    pub feed_contact_url: Option<String>,
}

impl FeedInfo {
    /// The first rule of the row that the record breaks.
    pub open spec fn row_fault(&self) -> Option<(SchemaFault, Seq<char>)> {
        if self.feed_publisher_name@.len() == 0 {
            Some((SchemaFault::Missing, "feed_publisher_name"@))
        } else if self.feed_start_date is Some && self.feed_end_date is Some && !self.feed_start_date.unwrap().spec_le(&self.feed_end_date.unwrap()) {
            Some((SchemaFault::Invalid, "feed_start_date or feed_end_date"@))
        } else {
            None
        }
    }

    /// Checks the rules of the row.
    pub fn validate(&self) -> (r: Result<(), Error>)
        ensures
            reports_schema_fault(r, self.row_fault()),
            carries_record(r, Schema::FeedInfo(*self)),
    {
        if self.feed_publisher_name.as_str().is_empty() {
            return Err(
                schema_error(
                    SchemaFault::Missing,
                    "feed_publisher_name",
                    "must be non-empty",
                    Schema::FeedInfo(self.copy()),
                ),
            );
        }
        if self.feed_start_date.is_some() && self.feed_end_date.is_some() && !self.feed_start_date.unwrap().le(&self.feed_end_date.unwrap()) {
            return Err(
                schema_error(
                    SchemaFault::Invalid,
                    "feed_start_date or feed_end_date",
                    "start_date cannot be greater than end_date",
                    Schema::FeedInfo(self.copy()),
                ),
            );
        }
        Ok(())
    }
}

/// An organization credited for the dataset or part of it.
#[derive(Clone, Debug)]
pub struct Attribution {
    pub attribution_id: Option<AttributionId>,
    pub agency_id: Option<AgencyId>,
    pub route_id: Option<RouteId>,
    pub trip_id: Option<TripId>,
    pub organization_name: String,
    pub is_producer: Option<bool>,
    pub is_operator: Option<bool>,
    pub is_authority: Option<bool>,
    pub attribution_url: Option<String>,
    pub attribution_email: Option<String>,
    pub attribution_phone: Option<String>,
}

impl Attribution {
    /// The first rule of the row that the record breaks.
    pub open spec fn row_fault(&self) -> Option<(SchemaFault, Seq<char>)> {
        if self.organization_name@.len() == 0 {
            Some((SchemaFault::Missing, "organization_name"@))
        } else {
            None
        }
    }

    /// Checks the rules of the row.
    pub fn validate(&self) -> (r: Result<(), Error>)
        ensures
            reports_schema_fault(r, self.row_fault()),
            carries_record(r, Schema::Attribution(*self)),
    {
        if self.organization_name.as_str().is_empty() {
            return Err(
                schema_error(
                    SchemaFault::Missing,
                    "organization_name",
                    "can never be empty",
                    Schema::Attribution(self.copy()),
                ),
            );
        }
        Ok(())
    }
}

} // verus!
