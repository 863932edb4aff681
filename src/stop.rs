//! Stops, stations and the other locations of the feed.
use vstd::prelude::*;

use crate::error::{carries_record, reports_schema_fault, schema_error, Error, SchemaFault};
use crate::ids::{LevelId, StopId};
use crate::schemas::{LocationType, Schema};
use crate::values::GtfsCoord;

verus! {

/// Whether wheelchair boardings are possible from a location.
#[derive(Clone, Copy, Debug, PartialEq, Eq, Hash, Structural)]
pub enum WheelchairBoarding {
    NoInformation,
    SomeAccessibility,
    NoAccessibility,
}

impl WheelchairBoarding {
    /// The value with the given code (0 to 2), if any.
    pub fn from_code(code: u8) -> (r: Option<WheelchairBoarding>)
        ensures
            code == 0 ==> r == Some(WheelchairBoarding::NoInformation),
            code == 1 ==> r == Some(WheelchairBoarding::SomeAccessibility),
            code == 2 ==> r == Some(WheelchairBoarding::NoAccessibility),
            (code > 2) ==> r is None,
    {
        if code == 0 {
            Some(WheelchairBoarding::NoInformation)
        } else if code == 1 {
            Some(WheelchairBoarding::SomeAccessibility)
        } else if code == 2 {
            Some(WheelchairBoarding::NoAccessibility)
        } else {
            None
        }
    }
}

/// A location: stop or platform, station, entrance or exit, generic node or
/// boarding area.
#[derive(Clone, Debug)]
pub struct Stop {
    pub stop_id: StopId,
    pub stop_code: Option<String>,
    /// Required for stops, stations and entrances.
    pub stop_name: Option<String>,
    pub tts_stop_name: Option<String>,
    pub stop_desc: Option<String>,
    /// Required for stops, stations and entrances.
    pub stop_coord: Option<GtfsCoord>,
    /// The fare zone.
    pub zone_id: Option<String>,
    pub stop_url: Option<String>,
    /// Absent means a stop or platform.
    pub location_type: Option<LocationType>,
    /// Required for entrances, generic nodes and boarding areas; forbidden
    /// for stations.
    pub parent_station: Option<StopId>,
    /// The IANA name of a time zone.
    pub stop_timezone: Option<String>,
    pub wheelchair_boarding: Option<WheelchairBoarding>,
    pub level_id: Option<LevelId>,
    pub platform_code: Option<String>,
}

/// The location type, where absence means a stop or platform.
pub open spec fn kind_of(t: Option<LocationType>) -> LocationType {
    match t {
        Some(k) => k,
        None => LocationType::StopOrPlatform,
    }
}

impl Stop {
    /// The location type, where absence means a stop or platform.
    pub open spec fn kind(&self) -> LocationType {
        kind_of(self.location_type)
    }

    /// A stop, station or entrance: a name and a position are required.
    pub open spec fn needs_name(&self) -> bool {
        self.kind() == LocationType::StopOrPlatform || self.kind() == LocationType::Station
            || self.kind() == LocationType::EntranceOrExit
    }

    /// An entrance, generic node or boarding area: a parent is required.
    pub open spec fn needs_parent(&self) -> bool {
        self.kind() == LocationType::EntranceOrExit || self.kind() == LocationType::GenericNode
            || self.kind() == LocationType::BoardingArea
    }

    /// The first rule of the row that the record breaks.
    pub open spec fn row_fault(&self) -> Option<(SchemaFault, Seq<char>)> {
        if self.needs_name() && self.stop_name is None {
            Some((SchemaFault::Missing, "stop_name"@))
        } else if self.needs_name() && self.stop_coord is None {
            Some((SchemaFault::Missing, "stop_coord"@))
        } else if self.needs_parent() && self.parent_station is None {
            Some((SchemaFault::Missing, "parent_station"@))
        } else if self.kind() == LocationType::Station && self.parent_station is Some {
            Some((SchemaFault::Forbidden, "parent_station"@))
        } else if self.stop_coord is Some && !self.stop_coord.unwrap().spec_in_range() {
            Some((SchemaFault::Invalid, "stop_coord"@))
        } else {
            None
        }
    }

    /// The location type, where absence means a stop or platform.
    pub fn location_kind(&self) -> (r: LocationType)
        ensures
            r == self.kind(),
    {
        match self.location_type {
            Some(k) => k,
            None => LocationType::StopOrPlatform,
        }
    }

    /// Checks the rules of the row: stops, stations and entrances have a name
    /// and a position; entrances, generic nodes and boarding areas have a
    /// parent; stations have none; a position lies on the globe.
    pub fn validate(&self) -> (r: Result<(), Error>)
        ensures
            reports_schema_fault(r, self.row_fault()),
            carries_record(r, Schema::Stop(*self)),
    {
        let kind = self.location_kind();
        let needs_name = kind == LocationType::StopOrPlatform || kind == LocationType::Station
            || kind == LocationType::EntranceOrExit;
        let needs_parent = kind == LocationType::EntranceOrExit || kind == LocationType::GenericNode
            || kind == LocationType::BoardingArea;
        if needs_name && self.stop_name.is_none() {
            return Err(
                schema_error(
                    SchemaFault::Missing,
                    "stop_name",
                    "LocationType is StopOrPlatform, Station or EntranceOrExit",
                    Schema::Stop(self.copy()),
                ),
            );
        }
        if needs_name && self.stop_coord.is_none() {
            return Err(
                schema_error(
                    SchemaFault::Missing,
                    "stop_coord",
                    "LocationType is StopOrPlatform, Station or EntranceOrExit",
                    Schema::Stop(self.copy()),
                ),
            );
        }
        if needs_parent && self.parent_station.is_none() {
            return Err(
                schema_error(
                    SchemaFault::Missing,
                    "parent_station",
                    "LocationType is EntranceOrExit, GenericNode or BoardingArea",
                    Schema::Stop(self.copy()),
                ),
            );
        }
        if kind == LocationType::Station && self.parent_station.is_some() {
            return Err(
                schema_error(
                    SchemaFault::Forbidden,
                    "parent_station",
                    "LocationType is Station",
                    Schema::Stop(self.copy()),
                ),
            );
        }
        if let Some(c) = &self.stop_coord {
            if !c.in_range() {
                return Err(
                    schema_error(
                        SchemaFault::Invalid,
                        "stop_coord",
                        "latitude must lie in [-90, 90] and longitude in [-180, 180]",
                        Schema::Stop(self.copy()),
                    ),
                );
            }
        }
        Ok(())
    }
}

} // verus!
