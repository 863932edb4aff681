//! Routes: groups of trips shown to riders as one service.
use vstd::prelude::*;

use crate::error::{carries_record, reports_schema_fault, schema_error, Error, SchemaFault};
use crate::ids::{AgencyId, NetworkId, RouteId};
use crate::schemas::{ContinuousDropOff, ContinuousPickup, Schema};

verus! {

/// The type of transportation used on a route.
#[derive(Clone, Copy, Debug, PartialEq, Eq, Hash, Structural)]
pub enum RouteType {
    LightRail,
    Subway,
    Rail,
    Bus,
    Ferry,
    CableTram,
    AerialLift,
    Funicular,
    Trolleybus,
    Monorail,
}

impl RouteType {
    /// The route type with the given code (0 to 7, 11, 12), if any.
    pub fn from_code(code: u8) -> (r: Option<RouteType>)
        ensures
            r is Some <==> (code <= 7 || code == 11 || code == 12),
            code == 3 ==> r == Some(RouteType::Bus),
    {
        if code == 0 {
            Some(RouteType::LightRail)
        } else if code == 1 {
            Some(RouteType::Subway)
        } else if code == 2 {
            Some(RouteType::Rail)
        } else if code == 3 {
            Some(RouteType::Bus)
        } else if code == 4 {
            Some(RouteType::Ferry)
        } else if code == 5 {
            Some(RouteType::CableTram)
        } else if code == 6 {
            Some(RouteType::AerialLift)
        } else if code == 7 {
            Some(RouteType::Funicular)
        } else if code == 11 {
            Some(RouteType::Trolleybus)
        } else if code == 12 {
            Some(RouteType::Monorail)
        } else {
            None
        }
    }
}

/// A transit route.
#[derive(Clone, Debug)]
pub struct Route {
    pub route_id: RouteId,
    pub agency_id: Option<AgencyId>,
    pub route_short_name: Option<String>,
    pub route_long_name: Option<String>,
    pub route_desc: Option<String>,
    pub route_type: RouteType,
    pub route_url: Option<String>,
    pub route_color: Option<String>,
    pub route_text_color: Option<String>,
    pub route_sort_order: Option<u32>,
    pub continuous_pickup: Option<ContinuousPickup>,
    pub continuous_drop_off: Option<ContinuousDropOff>,
    pub network_id: Option<NetworkId>,
}

impl Route {
    /// The first rule of the row that the record breaks.
    pub open spec fn row_fault(&self) -> Option<(SchemaFault, Seq<char>)> {
        if self.route_id.0@.len() == 0 {
            Some((SchemaFault::Missing, "route_id"@))
        } else if self.route_short_name is None && self.route_long_name is None {
            Some((SchemaFault::Missing, "route_short_name or route_long_name"@))
        } else {
            None
        }
    }

    /// The route sets continuous pickup or continuous drop-off.
    pub open spec fn spec_is_continuous(&self) -> bool {
        self.continuous_pickup is Some || self.continuous_drop_off is Some
    }

    /// The route sets continuous pickup or continuous drop-off.
    pub fn is_continuous(&self) -> (r: bool)
        ensures
            r == self.spec_is_continuous(),
    {
        self.continuous_pickup.is_some() || self.continuous_drop_off.is_some()
    }

    /// Checks the rules of the row: an identifier, and a short or a long name.
    pub fn validate(&self) -> (r: Result<(), Error>)
        ensures
            reports_schema_fault(r, self.row_fault()),
            carries_record(r, Schema::Route(*self)),
    {
        if self.route_id.is_empty() {
            return Err(
                schema_error(
                    SchemaFault::Missing,
                    "route_id",
                    "can never be empty",
                    Schema::Route(self.copy()),
                ),
            );
        }
        if self.route_short_name.is_none() && self.route_long_name.is_none() {
            return Err(
                schema_error(
                    SchemaFault::Missing,
                    "route_short_name or route_long_name",
                    "at least one of them must be non-empty",
                    Schema::Route(self.copy()),
                ),
            );
        }
        Ok(())
    }
}

} // verus!
