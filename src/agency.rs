//! Transit agencies.
use vstd::prelude::*;

use crate::error::{carries_record, reports_schema_fault, schema_error, Error, SchemaFault};
use crate::ids::AgencyId;
use crate::schemas::Schema;

verus! {

/// A transit agency.
#[derive(Clone, Debug)]
pub struct Agency {
    /// Required when the dataset holds more than one agency.
    pub agency_id: Option<AgencyId>,
    pub agency_name: String,
    pub agency_url: String,
    /// The IANA name of the agency's time zone; all agencies share it.
    pub agency_timezone: String,
    /// A language tag.
    pub agency_lang: Option<String>,
    pub agency_phone: Option<String>,
    pub agency_fare_url: Option<String>,
    pub agency_email: Option<String>,
}

impl Agency {
    /// The first rule of the row that the record breaks.
    pub open spec fn row_fault(&self) -> Option<(SchemaFault, Seq<char>)> {
        match self.agency_id {
            Some(id) if id.0@.len() == 0 => Some((SchemaFault::Missing, "agency_id"@)),
            _ => None,
        }
    }

    /// Checks the rules of the row: an agency identifier, when given, is not
    /// empty.
    pub fn validate(&self) -> (r: Result<(), Error>)
        ensures
            reports_schema_fault(r, self.row_fault()),
            carries_record(r, Schema::Agency(*self)),
    {
        if let Some(id) = &self.agency_id {
            if id.is_empty() {
                return Err(
                    schema_error(
                        SchemaFault::Missing,
                        "agency_id",
                        "agency_id is required",
                        Schema::Agency(self.copy()),
                    ),
                );
            }
        }
        Ok(())
    }
}

} // verus!
