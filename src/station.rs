//! Station topology and groupings: pathways, levels, areas, networks and
//! location groups, with the tables that link them to stops and routes.
use vstd::prelude::*;

use crate::error::{carries_record, reports_schema_fault, schema_error, Error, SchemaFault};
use crate::ids::{AreaId, LevelId, LocationGroupId, NetworkId, PathwayId, RouteId, StopId};
use crate::schemas::Schema;
use crate::values::Measure;

verus! {

/// The kind of a pathway.
#[derive(Clone, Copy, Debug, PartialEq, Eq, Hash, Structural)]
pub enum PathwayMode {
    Walkway,
    Stairs,
    MovingSidewalk,
    Escalator,
    Elevator,
    /// A gate that requires proof of payment to cross.
    FareGate,
    /// A gate for leaving a paid area only.
    ExitGate,
}

impl PathwayMode {
    /// The mode with the given code (1 to 7), if any.
    pub fn from_code(code: u8) -> (r: Option<PathwayMode>)
        ensures
            r is Some <==> (1 <= code <= 7),
            code == 7 ==> r == Some(PathwayMode::ExitGate),
    {
        if code == 1 {
            Some(PathwayMode::Walkway)
        } else if code == 2 {
            Some(PathwayMode::Stairs)
        } else if code == 3 {
            Some(PathwayMode::MovingSidewalk)
        } else if code == 4 {
            Some(PathwayMode::Escalator)
        } else if code == 5 {
            Some(PathwayMode::Elevator)
        } else if code == 6 {
            Some(PathwayMode::FareGate)
        } else if code == 7 {
            Some(PathwayMode::ExitGate)
        } else {
            None
        }
    }
}

/// A pathway linking two locations within a station.
#[derive(Clone, Debug)]
pub struct Pathway {
    pub pathway_id: PathwayId,
    pub from_stop_id: StopId,
    pub to_stop_id: StopId,
    pub pathway_mode: PathwayMode,
    /// Exit gates are never bidirectional.
    pub is_bidirectional: bool,
    /// In meters; not negative.
    pub length: Option<Measure>,
    /// In seconds.
    pub traversal_time: Option<u64>,
    pub stair_count: Option<i32>,
    pub max_slope: Option<Measure>,
    /// In meters; not negative.
    pub min_width: Option<Measure>,
    pub signposted_as: Option<String>,
    pub reversed_signposted_as: Option<String>,
}

impl Pathway {
    /// The first rule of the row that the record breaks.
    pub open spec fn row_fault(&self) -> Option<(SchemaFault, Seq<char>)> {
        if self.pathway_id.0@.len() == 0 {
            Some((SchemaFault::Missing, "pathway_id"@))
        } else if self.from_stop_id.0@.len() == 0 || self.to_stop_id.0@.len() == 0 {
            Some((SchemaFault::Missing, "from_stop_id or to_stop_id"@))
        } else if self.pathway_mode == PathwayMode::ExitGate && self.is_bidirectional {
            Some((SchemaFault::Invalid, "is_bidirectional"@))
        } else if self.length is Some && self.length.unwrap().spec_is_negative() {
            Some((SchemaFault::Invalid, "length"@))
        } else if self.min_width is Some && self.min_width.unwrap().spec_is_negative() {
            Some((SchemaFault::Invalid, "min_width"@))
        } else {
            None
        }
    }

    /// Checks the rules of the row: identifiers are not empty, an exit gate
    /// is not bidirectional, length and width are not negative.
    pub fn validate(&self) -> (r: Result<(), Error>)
        ensures
            reports_schema_fault(r, self.row_fault()),
            carries_record(r, Schema::Pathway(*self)),
    {
        if self.pathway_id.is_empty() {
            return Err(
                schema_error(
                    SchemaFault::Missing,
                    "pathway_id",
                    "can never be empty",
                    Schema::Pathway(self.copy()),
                ),
            );
        }
        if self.from_stop_id.is_empty() || self.to_stop_id.is_empty() {
            return Err(
                schema_error(
                    SchemaFault::Missing,
                    "from_stop_id or to_stop_id",
                    "can never be empty",
                    Schema::Pathway(self.copy()),
                ),
            );
        }
        if self.pathway_mode == PathwayMode::ExitGate && self.is_bidirectional {
            return Err(
                schema_error(
                    SchemaFault::Invalid,
                    "is_bidirectional",
                    "must be false when pathway_mode is ExitGate",
                    Schema::Pathway(self.copy()),
                ),
            );
        }
        if self.length.is_some() && self.length.unwrap().is_negative() {
            return Err(
                schema_error(
                    SchemaFault::Invalid,
                    "length",
                    "must be positive",
                    Schema::Pathway(self.copy()),
                ),
            );
        }
        if self.min_width.is_some() && self.min_width.unwrap().is_negative() {
            return Err(
                schema_error(
                    SchemaFault::Invalid,
                    "min_width",
                    "must be positive",
                    Schema::Pathway(self.copy()),
                ),
            );
        }
        Ok(())
    }
}

/// A level within a station.
#[derive(Clone, Debug)]
pub struct Level {
    pub level_id: LevelId,
    pub level_index: Measure,
    pub level_name: Option<String>,
}

impl Level {
    /// The first rule of the row that the record breaks.
    pub open spec fn row_fault(&self) -> Option<(SchemaFault, Seq<char>)> {
        if self.level_id.0@.len() == 0 {
            Some((SchemaFault::Missing, "level_id"@))
        } else {
            None
        }
    }

    /// Checks the rules of the row.
    pub fn validate(&self) -> (r: Result<(), Error>)
        ensures
            reports_schema_fault(r, self.row_fault()),
            carries_record(r, Schema::Level(*self)),
    {
        if self.level_id.is_empty() {
            return Err(
                schema_error(
                    SchemaFault::Missing,
                    "level_id",
                    "can never be empty",
                    Schema::Level(self.copy()),
                ),
            );
        }
        Ok(())
    }
}

/// An area: a grouping of locations.
#[derive(Clone, Debug)]
pub struct Area {
    pub area_id: AreaId,
    pub area_name: Option<String>,
}

impl Area {
    /// The first rule of the row that the record breaks.
    pub open spec fn row_fault(&self) -> Option<(SchemaFault, Seq<char>)> {
        if self.area_id.0@.len() == 0 {
            Some((SchemaFault::Missing, "area_id"@))
        } else {
            None
        }
    }

    /// Checks the rules of the row.
    pub fn validate(&self) -> (r: Result<(), Error>)
        ensures
            reports_schema_fault(r, self.row_fault()),
            carries_record(r, Schema::Area(*self)),
    {
        if self.area_id.is_empty() {
            return Err(
                schema_error(
                    SchemaFault::Missing,
                    "area_id",
                    "can never be empty",
                    Schema::Area(self.copy()),
                ),
            );
        }
        Ok(())
    }
}

/// Assigns a stop to an area.
#[derive(Clone, Debug)]
pub struct StopArea {
    pub area_id: AreaId,
    pub stop_id: StopId,
}

impl StopArea {
    /// The first rule of the row that the record breaks.
    pub open spec fn row_fault(&self) -> Option<(SchemaFault, Seq<char>)> {
        if self.area_id.0@.len() == 0 {
            Some((SchemaFault::Missing, "area_id"@))
        } else if self.stop_id.0@.len() == 0 {
            Some((SchemaFault::Missing, "stop_id"@))
        } else {
            None
        }
    }

    /// Checks the rules of the row.
    pub fn validate(&self) -> (r: Result<(), Error>)
        ensures
            reports_schema_fault(r, self.row_fault()),
            carries_record(r, Schema::StopArea(*self)),
    {
        if self.area_id.is_empty() {
            return Err(
                schema_error(
                    SchemaFault::Missing,
                    "area_id",
                    "can never be empty",
                    Schema::StopArea(self.copy()),
                ),
            );
        }
        if self.stop_id.is_empty() {
            return Err(
                schema_error(
                    SchemaFault::Missing,
                    "stop_id",
                    "can never be empty",
                    Schema::StopArea(self.copy()),
                ),
            );
        }
        Ok(())
    }
}

/// A network of routes.
#[derive(Clone, Debug)]
pub struct Network {
    pub network_id: NetworkId,
    pub network_name: Option<String>,
}

impl Network {
    /// The first rule of the row that the record breaks.
    pub open spec fn row_fault(&self) -> Option<(SchemaFault, Seq<char>)> {
        if self.network_id.0@.len() == 0 {
            Some((SchemaFault::Missing, "network_id"@))
        } else {
            None
        }
    }

    /// Checks the rules of the row.
    pub fn validate(&self) -> (r: Result<(), Error>)
        ensures
            reports_schema_fault(r, self.row_fault()),
            carries_record(r, Schema::Network(*self)),
    {
        if self.network_id.is_empty() {
            return Err(
                schema_error(
                    SchemaFault::Missing,
                    "network_id",
                    "can never be empty",
                    Schema::Network(self.copy()),
                ),
            );
        }
        Ok(())
    }
}

/// Assigns a route to a network.
#[derive(Clone, Debug)]
pub struct RouteNetwork {
    pub network_id: NetworkId,
    pub route_id: RouteId,
}

impl RouteNetwork {
    /// The first rule of the row that the record breaks.
    pub open spec fn row_fault(&self) -> Option<(SchemaFault, Seq<char>)> {
        if self.network_id.0@.len() == 0 {
            Some((SchemaFault::Missing, "network_id"@))
        } else if self.route_id.0@.len() == 0 {
            Some((SchemaFault::Missing, "route_id"@))
        } else {
            None
        }
    }

    /// Checks the rules of the row.
    pub fn validate(&self) -> (r: Result<(), Error>)
        ensures
            reports_schema_fault(r, self.row_fault()),
            carries_record(r, Schema::RouteNetwork(*self)),
    {
        if self.network_id.is_empty() {
            return Err(
                schema_error(
                    SchemaFault::Missing,
                    "network_id",
                    "can never be empty",
                    Schema::RouteNetwork(self.copy()),
                ),
            );
        }
        if self.route_id.is_empty() {
            return Err(
                schema_error(
                    SchemaFault::Missing,
                    "route_id",
                    "can never be empty",
                    Schema::RouteNetwork(self.copy()),
                ),
            );
        }
        Ok(())
    }
}

/// A group of stops where a rider may request pickup or drop off.
#[derive(Clone, Debug)]
pub struct LocationGroup {
    pub location_group_id: LocationGroupId,
    pub location_group_name: Option<String>,
}

impl LocationGroup {
    /// The first rule of the row that the record breaks.
    pub open spec fn row_fault(&self) -> Option<(SchemaFault, Seq<char>)> {
        if self.location_group_id.0@.len() == 0 {
            Some((SchemaFault::Missing, "location_group_id"@))
        } else {
            None
        }
    }

    /// Checks the rules of the row.
    pub fn validate(&self) -> (r: Result<(), Error>)
        ensures
            reports_schema_fault(r, self.row_fault()),
            carries_record(r, Schema::LocationGroup(*self)),
    {
        if self.location_group_id.is_empty() {
            return Err(
                schema_error(
                    SchemaFault::Missing,
                    "location_group_id",
                    "can never be empty",
                    Schema::LocationGroup(self.copy()),
                ),
            );
        }
        Ok(())
    }
}

/// Assigns a stop to a location group.
#[derive(Clone, Debug)]
pub struct LocationGroupStop {
    pub location_group_id: LocationGroupId,
    pub stop_id: StopId,
}

impl LocationGroupStop {
    /// The first rule of the row that the record breaks.
    pub open spec fn row_fault(&self) -> Option<(SchemaFault, Seq<char>)> {
        if self.location_group_id.0@.len() == 0 {
            Some((SchemaFault::Missing, "location_group_id"@))
        } else if self.stop_id.0@.len() == 0 {
            Some((SchemaFault::Missing, "stop_id"@))
        } else {
            None
        }
    }

    /// Checks the rules of the row.
    pub fn validate(&self) -> (r: Result<(), Error>)
        ensures
            reports_schema_fault(r, self.row_fault()),
            carries_record(r, Schema::LocationGroupStop(*self)),
    {
        if self.location_group_id.is_empty() {
            return Err(
                schema_error(
                    SchemaFault::Missing,
                    "location_group_id",
                    "can never be empty",
                    Schema::LocationGroupStop(self.copy()),
                ),
            );
        }
        if self.stop_id.is_empty() {
            return Err(
                schema_error(
                    SchemaFault::Missing,
                    "stop_id",
                    "can never be empty",
                    Schema::LocationGroupStop(self.copy()),
                ),
            );
        }
        Ok(())
    }
}

} // verus!
