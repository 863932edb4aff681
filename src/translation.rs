//! Translations of rider-facing text.
use vstd::prelude::*;
use vstd::string::*;

use crate::error::{carries_record, reports_schema_fault, schema_error, Error, SchemaFault};
use crate::schemas::Schema;

verus! {

/// The table whose field a translation concerns.
#[derive(Clone, Copy, Debug, PartialEq, Eq, Hash, Structural)]
pub enum TableName {
    Agency,
    Stops,
    Routes,
    Trips,
    StopTimes,
    Pathways,
    Levels,
    FeedInfo,
    Attributions,
    Calendar,
    CalendarDates,
    FareAttributes,
    FareRules,
    Shapes,
    Frequencies,
    Transfers,
}

/// The table that a file name without its extension denotes.
pub open spec fn table_of_name(s: Seq<char>) -> Option<TableName> {
    if s == "agency"@ {
        Some(TableName::Agency)
    } else if s == "stops"@ {
        Some(TableName::Stops)
    } else if s == "routes"@ {
        Some(TableName::Routes)
    } else if s == "trips"@ {
        Some(TableName::Trips)
    } else if s == "stop_times"@ {
        Some(TableName::StopTimes)
    } else if s == "pathways"@ {
        Some(TableName::Pathways)
    } else if s == "levels"@ {
        Some(TableName::Levels)
    } else if s == "feed_info"@ {
        Some(TableName::FeedInfo)
    } else if s == "attributions"@ {
        Some(TableName::Attributions)
    } else if s == "calendar"@ {
        Some(TableName::Calendar)
    } else if s == "calendar_dates"@ {
        Some(TableName::CalendarDates)
    } else if s == "fare_attributes"@ {
        Some(TableName::FareAttributes)
    } else if s == "fare_rules"@ {
        Some(TableName::FareRules)
    } else if s == "shapes"@ {
        Some(TableName::Shapes)
    } else if s == "frequencies"@ {
        Some(TableName::Frequencies)
    } else if s == "transfers"@ {
        Some(TableName::Transfers)
    } else {
        None
    }
}

impl TableName {
    /// The table with the given name (`stops`, `stop_times`, ...), if any.
    pub fn from_name(s: &String) -> (r: Option<TableName>)
        ensures
            r == table_of_name(s@),
    {
        proof {
            reveal_strlit("agency");
            reveal_strlit("stops");
            reveal_strlit("routes");
            reveal_strlit("trips");
            reveal_strlit("stop_times");
            reveal_strlit("pathways");
            reveal_strlit("levels");
            reveal_strlit("feed_info");
            reveal_strlit("attributions");
            reveal_strlit("calendar");
            reveal_strlit("calendar_dates");
            reveal_strlit("fare_attributes");
            reveal_strlit("fare_rules");
            reveal_strlit("shapes");
            reveal_strlit("frequencies");
            reveal_strlit("transfers");
        }
        if *s == String::from_str("agency") {
            return Some(TableName::Agency);
        }
        if *s == String::from_str("stops") {
            return Some(TableName::Stops);
        }
        if *s == String::from_str("routes") {
            return Some(TableName::Routes);
        }
        if *s == String::from_str("trips") {
            return Some(TableName::Trips);
        }
        if *s == String::from_str("stop_times") {
            return Some(TableName::StopTimes);
        }
        if *s == String::from_str("pathways") {
            return Some(TableName::Pathways);
        }
        if *s == String::from_str("levels") {
            return Some(TableName::Levels);
        }
        if *s == String::from_str("feed_info") {
            return Some(TableName::FeedInfo);
        }
        if *s == String::from_str("attributions") {
            return Some(TableName::Attributions);
        }
        if *s == String::from_str("calendar") {
            return Some(TableName::Calendar);
        }
        if *s == String::from_str("calendar_dates") {
            return Some(TableName::CalendarDates);
        }
        if *s == String::from_str("fare_attributes") {
            return Some(TableName::FareAttributes);
        }
        if *s == String::from_str("fare_rules") {
            return Some(TableName::FareRules);
        }
        if *s == String::from_str("shapes") {
            return Some(TableName::Shapes);
        }
        if *s == String::from_str("frequencies") {
            return Some(TableName::Frequencies);
        }
        if *s == String::from_str("transfers") {
            return Some(TableName::Transfers);
        }
        None
    }
}

/// A translation of one field's value into one language.
#[derive(Clone, Debug)]
pub struct Translation {
    pub table_name: TableName,
    pub field_name: String,
    /// A language tag.
    pub language: String,
    pub translation: String,
    pub record_id: Option<String>,
    pub record_sub_id: Option<String>,
    pub field_value: Option<String>,
}

impl Translation {
    /// The first rule of the row that the record breaks.
    pub open spec fn row_fault(&self) -> Option<(SchemaFault, Seq<char>)> {
        if self.field_name@.len() == 0 {
            Some((SchemaFault::Missing, "field_name"@))
        } else if self.translation@.len() == 0 {
            Some((SchemaFault::Missing, "translation"@))
        } else if self.table_name == TableName::FeedInfo && (self.record_id is Some || self.record_sub_id is Some || self.field_value is Some) {
            Some((SchemaFault::Forbidden, "record_id, record_sub_id, or field_value"@))
        } else if !(self.table_name == TableName::FeedInfo) && self.record_id is None && self.field_value is None {
            Some((SchemaFault::Missing, "record_id and/or field_value"@))
        } else if !(self.table_name == TableName::FeedInfo) && self.record_id is Some && self.field_value is Some {
            Some((SchemaFault::Forbidden, "record_id and field_value"@))
        } else if !(self.table_name == TableName::FeedInfo) && self.record_id is Some && self.table_name == TableName::StopTimes && self.record_sub_id is None {
            Some((SchemaFault::Missing, "record_sub_id"@))
        } else {
            None
        }
    }

    /// Checks the rules of the row: a field name and a translation; for the
    /// feed info table no record reference or field value; for the others a
    /// record reference or a field value but not both, and for stop times a
    /// record sub-reference beside a record reference.
    pub fn validate(&self) -> (r: Result<(), Error>)
        ensures
            reports_schema_fault(r, self.row_fault()),
            carries_record(r, Schema::Translation(*self)),
    {
        if self.field_name.as_str().is_empty() {
            return Err(
                schema_error(
                    SchemaFault::Missing,
                    "field_name",
                    "can never be empty",
                    Schema::Translation(self.copy()),
                ),
            );
        }
        if self.translation.as_str().is_empty() {
            return Err(
                schema_error(
                    SchemaFault::Missing,
                    "translation",
                    "can never be empty",
                    Schema::Translation(self.copy()),
                ),
            );
        }
        if self.table_name == TableName::FeedInfo && (self.record_id.is_some() || self.record_sub_id.is_some() || self.field_value.is_some()) {
            return Err(
                schema_error(
                    SchemaFault::Forbidden,
                    "record_id, record_sub_id, or field_value",
                    "forbidden when table_name is FeedInfo",
                    Schema::Translation(self.copy()),
                ),
            );
        }
        if !(self.table_name == TableName::FeedInfo) && self.record_id.is_none() && self.field_value.is_none() {
            return Err(
                schema_error(
                    SchemaFault::Missing,
                    "record_id and/or field_value",
                    "one of them is required when table_name is not FeedInfo",
                    Schema::Translation(self.copy()),
                ),
            );
        }
        if !(self.table_name == TableName::FeedInfo) && self.record_id.is_some() && self.field_value.is_some() {
            return Err(
                schema_error(
                    SchemaFault::Forbidden,
                    "record_id and field_value",
                    "forbidden together when table_name is not FeedInfo",
                    Schema::Translation(self.copy()),
                ),
            );
        }
        if !(self.table_name == TableName::FeedInfo) && self.record_id.is_some() && self.table_name == TableName::StopTimes && self.record_sub_id.is_none() {
            return Err(
                schema_error(
                    SchemaFault::Missing,
                    "record_sub_id",
                    "when table_name is StopTimes and record_id is defined, record_sub_id is required",
                    Schema::Translation(self.copy()),
                ),
            );
        }
        Ok(())
    }
}

} // verus!
