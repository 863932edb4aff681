//! Identifier types. Each entity family has its own identifier type, so that
//! an identifier of one family is never taken for one of another. Each wraps
//! the identifier's text; equality and order are those of the text.
use vstd::prelude::*;
use vstd::string::*;

verus! {

/// Identifies a transit brand, often synonymous with a transit agency.
#[derive(Clone, Debug, PartialEq, Eq, PartialOrd, Ord, Hash)]
pub struct AgencyId(pub String);

impl AgencyId {
    /// The identifier with the given text.
    pub fn new(s: &str) -> (r: AgencyId)
        ensures
            r.0@ == s@,
    {
        AgencyId(String::from_str(s))
    }

    /// The identifier's text.
    pub fn as_str(&self) -> (r: &str)
        ensures
            r@ == self.0@,
    {
        self.0.as_str()
    }

    /// The text is empty.
    pub fn is_empty(&self) -> (r: bool)
        ensures
            r == (self.0@.len() == 0),
    {
        self.0.as_str().is_empty()
    }

    /// Both identifiers have the same text.
    pub fn same(&self, other: &AgencyId) -> (r: bool)
        ensures
            r == (self.0@ == other.0@),
    {
        self.0 == other.0
    }

    /// A copy with the same text.
    pub fn duplicate(&self) -> (r: AgencyId)
        ensures
            r.0@ == self.0@,
    {
        AgencyId(self.0.clone())
    }
}

/// Identifies an area: a grouping of locations.
#[derive(Clone, Debug, PartialEq, Eq, PartialOrd, Ord, Hash)]
pub struct AreaId(pub String);

impl AreaId {
    /// The identifier with the given text.
    pub fn new(s: &str) -> (r: AreaId)
        ensures
            r.0@ == s@,
    {
        AreaId(String::from_str(s))
    }

    /// The identifier's text.
    pub fn as_str(&self) -> (r: &str)
        ensures
            r@ == self.0@,
    {
        self.0.as_str()
    }

    /// The text is empty.
    pub fn is_empty(&self) -> (r: bool)
        ensures
            r == (self.0@.len() == 0),
    {
        self.0.as_str().is_empty()
    }

    /// Both identifiers have the same text.
    pub fn same(&self, other: &AreaId) -> (r: bool)
        ensures
            r == (self.0@ == other.0@),
    {
        self.0 == other.0
    }

    /// A copy with the same text.
    pub fn duplicate(&self) -> (r: AreaId)
        ensures
            r.0@ == self.0@,
    {
        AreaId(self.0.clone())
    }
}

/// Identifies an attribution of the dataset.
#[derive(Clone, Debug, PartialEq, Eq, PartialOrd, Ord, Hash)]
pub struct AttributionId(pub String);

impl AttributionId {
    /// The identifier with the given text.
    pub fn new(s: &str) -> (r: AttributionId)
        ensures
            r.0@ == s@,
    {
        AttributionId(String::from_str(s))
    }

    /// The identifier's text.
    pub fn as_str(&self) -> (r: &str)
        ensures
            r@ == self.0@,
    {
        self.0.as_str()
    }

    /// The text is empty.
    pub fn is_empty(&self) -> (r: bool)
        ensures
            r == (self.0@.len() == 0),
    {
        self.0.as_str().is_empty()
    }

    /// Both identifiers have the same text.
    pub fn same(&self, other: &AttributionId) -> (r: bool)
        ensures
            r == (self.0@ == other.0@),
    {
        self.0 == other.0
    }

    /// A copy with the same text.
    pub fn duplicate(&self) -> (r: AttributionId)
        ensures
            r.0@ == self.0@,
    {
        AttributionId(self.0.clone())
    }
}

/// Identifies a booking rule for rider-requested services.
#[derive(Clone, Debug, PartialEq, Eq, PartialOrd, Ord, Hash)]
pub struct BookingRuleId(pub String);

impl BookingRuleId {
    /// The identifier with the given text.
    pub fn new(s: &str) -> (r: BookingRuleId)
        ensures
            r.0@ == s@,
    {
        BookingRuleId(String::from_str(s))
    }

    /// The identifier's text.
    pub fn as_str(&self) -> (r: &str)
        ensures
            r@ == self.0@,
    {
        self.0.as_str()
    }

    /// The text is empty.
    pub fn is_empty(&self) -> (r: bool)
        ensures
            r == (self.0@.len() == 0),
    {
        self.0.as_str().is_empty()
    }

    /// Both identifiers have the same text.
    pub fn same(&self, other: &BookingRuleId) -> (r: bool)
        ensures
            r == (self.0@ == other.0@),
    {
        self.0 == other.0
    }

    /// A copy with the same text.
    pub fn duplicate(&self) -> (r: BookingRuleId)
        ensures
            r.0@ == self.0@,
    {
        BookingRuleId(self.0.clone())
    }
}

/// Identifies a set of dates when service is available.
#[derive(Clone, Debug, PartialEq, Eq, PartialOrd, Ord, Hash)]
pub struct CalendarServiceId(pub String);

impl CalendarServiceId {
    /// The identifier with the given text.
    pub fn new(s: &str) -> (r: CalendarServiceId)
        ensures
            r.0@ == s@,
    {
        CalendarServiceId(String::from_str(s))
    }

    /// The identifier's text.
    pub fn as_str(&self) -> (r: &str)
        ensures
            r@ == self.0@,
    {
        self.0.as_str()
    }

    /// The text is empty.
    pub fn is_empty(&self) -> (r: bool)
        ensures
            r == (self.0@.len() == 0),
    {
        self.0.as_str().is_empty()
    }

    /// Both identifiers have the same text.
    pub fn same(&self, other: &CalendarServiceId) -> (r: bool)
        ensures
            r == (self.0@ == other.0@),
    {
        self.0 == other.0
    }

    /// A copy with the same text.
    pub fn duplicate(&self) -> (r: CalendarServiceId)
        ensures
            r.0@ == self.0@,
    {
        CalendarServiceId(self.0.clone())
    }
}

/// Identifies a fare class.
#[derive(Clone, Debug, PartialEq, Eq, PartialOrd, Ord, Hash)]
pub struct FareId(pub String);

impl FareId {
    /// The identifier with the given text.
    pub fn new(s: &str) -> (r: FareId)
        ensures
            r.0@ == s@,
    {
        FareId(String::from_str(s))
    }

    /// The identifier's text.
    pub fn as_str(&self) -> (r: &str)
        ensures
            r@ == self.0@,
    {
        self.0.as_str()
    }

    /// The text is empty.
    pub fn is_empty(&self) -> (r: bool)
        ensures
            r == (self.0@.len() == 0),
    {
        self.0.as_str().is_empty()
    }

    /// Both identifiers have the same text.
    pub fn same(&self, other: &FareId) -> (r: bool)
        ensures
            r == (self.0@ == other.0@),
    {
        self.0 == other.0
    }

    /// A copy with the same text.
    pub fn duplicate(&self) -> (r: FareId)
        ensures
            r.0@ == self.0@,
    {
        FareId(self.0.clone())
    }
}

/// Identifies a group of fare leg rules.
#[derive(Clone, Debug, PartialEq, Eq, PartialOrd, Ord, Hash)]
pub struct FareLegRuleId(pub String);

impl FareLegRuleId {
    /// The identifier with the given text.
    pub fn new(s: &str) -> (r: FareLegRuleId)
        ensures
            r.0@ == s@,
    {
        FareLegRuleId(String::from_str(s))
    }

    /// The identifier's text.
    pub fn as_str(&self) -> (r: &str)
        ensures
            r@ == self.0@,
    {
        self.0.as_str()
    }

    /// The text is empty.
    pub fn is_empty(&self) -> (r: bool)
        ensures
            r == (self.0@.len() == 0),
    {
        self.0.as_str().is_empty()
    }

    /// Both identifiers have the same text.
    pub fn same(&self, other: &FareLegRuleId) -> (r: bool)
        ensures
            r == (self.0@ == other.0@),
    {
        self.0 == other.0
    }

    /// A copy with the same text.
    pub fn duplicate(&self) -> (r: FareLegRuleId)
        ensures
            r.0@ == self.0@,
    {
        FareLegRuleId(self.0.clone())
    }
}

/// Identifies a fare medium.
#[derive(Clone, Debug, PartialEq, Eq, PartialOrd, Ord, Hash)]
pub struct FareMediaId(pub String);

impl FareMediaId {
    /// The identifier with the given text.
    pub fn new(s: &str) -> (r: FareMediaId)
        ensures
            r.0@ == s@,
    {
        FareMediaId(String::from_str(s))
    }

    /// The identifier's text.
    pub fn as_str(&self) -> (r: &str)
        ensures
            r@ == self.0@,
    {
        self.0.as_str()
    }

    /// The text is empty.
    pub fn is_empty(&self) -> (r: bool)
        ensures
            r == (self.0@.len() == 0),
    {
        self.0.as_str().is_empty()
    }

    /// Both identifiers have the same text.
    pub fn same(&self, other: &FareMediaId) -> (r: bool)
        ensures
            r == (self.0@ == other.0@),
    {
        self.0 == other.0
    }

    /// A copy with the same text.
    pub fn duplicate(&self) -> (r: FareMediaId)
        ensures
            r.0@ == self.0@,
    {
        FareMediaId(self.0.clone())
    }
}

/// Identifies a fare product.
#[derive(Clone, Debug, PartialEq, Eq, PartialOrd, Ord, Hash)]
pub struct FareProductId(pub String);

impl FareProductId {
    /// The identifier with the given text.
    pub fn new(s: &str) -> (r: FareProductId)
        ensures
            r.0@ == s@,
    {
        FareProductId(String::from_str(s))
    }

    /// The identifier's text.
    pub fn as_str(&self) -> (r: &str)
        ensures
            r@ == self.0@,
    {
        self.0.as_str()
    }

    /// The text is empty.
    pub fn is_empty(&self) -> (r: bool)
        ensures
            r == (self.0@.len() == 0),
    {
        self.0.as_str().is_empty()
    }

    /// Both identifiers have the same text.
    pub fn same(&self, other: &FareProductId) -> (r: bool)
        ensures
            r == (self.0@ == other.0@),
    {
        self.0 == other.0
    }

    /// A copy with the same text.
    pub fn duplicate(&self) -> (r: FareProductId)
        ensures
            r.0@ == self.0@,
    {
        FareProductId(self.0.clone())
    }
}

/// Identifies a level within a station.
#[derive(Clone, Debug, PartialEq, Eq, PartialOrd, Ord, Hash)]
pub struct LevelId(pub String);

impl LevelId {
    /// The identifier with the given text.
    pub fn new(s: &str) -> (r: LevelId)
        ensures
            r.0@ == s@,
    {
        LevelId(String::from_str(s))
    }

    /// The identifier's text.
    pub fn as_str(&self) -> (r: &str)
        ensures
            r@ == self.0@,
    {
        self.0.as_str()
    }

    /// The text is empty.
    pub fn is_empty(&self) -> (r: bool)
        ensures
            r == (self.0@.len() == 0),
    {
        self.0.as_str().is_empty()
    }

    /// Both identifiers have the same text.
    pub fn same(&self, other: &LevelId) -> (r: bool)
        ensures
            r == (self.0@ == other.0@),
    {
        self.0 == other.0
    }

    /// A copy with the same text.
    pub fn duplicate(&self) -> (r: LevelId)
        ensures
            r.0@ == self.0@,
    {
        LevelId(self.0.clone())
    }
}

/// Identifies a group of locations where a rider may request pickup or drop off.
#[derive(Clone, Debug, PartialEq, Eq, PartialOrd, Ord, Hash)]
pub struct LocationGroupId(pub String);

impl LocationGroupId {
    /// The identifier with the given text.
    pub fn new(s: &str) -> (r: LocationGroupId)
        ensures
            r.0@ == s@,
    {
        LocationGroupId(String::from_str(s))
    }

    /// The identifier's text.
    pub fn as_str(&self) -> (r: &str)
        ensures
            r@ == self.0@,
    {
        self.0.as_str()
    }

    /// The text is empty.
    pub fn is_empty(&self) -> (r: bool)
        ensures
            r == (self.0@.len() == 0),
    {
        self.0.as_str().is_empty()
    }

    /// Both identifiers have the same text.
    pub fn same(&self, other: &LocationGroupId) -> (r: bool)
        ensures
            r == (self.0@ == other.0@),
    {
        self.0 == other.0
    }

    /// A copy with the same text.
    pub fn duplicate(&self) -> (r: LocationGroupId)
        ensures
            r.0@ == self.0@,
    {
        LocationGroupId(self.0.clone())
    }
}

/// Identifies a network of routes.
#[derive(Clone, Debug, PartialEq, Eq, PartialOrd, Ord, Hash)]
pub struct NetworkId(pub String);

impl NetworkId {
    /// The identifier with the given text.
    pub fn new(s: &str) -> (r: NetworkId)
        ensures
            r.0@ == s@,
    {
        NetworkId(String::from_str(s))
    }

    /// The identifier's text.
    pub fn as_str(&self) -> (r: &str)
        ensures
            r@ == self.0@,
    {
        self.0.as_str()
    }

    /// The text is empty.
    pub fn is_empty(&self) -> (r: bool)
        ensures
            r == (self.0@.len() == 0),
    {
        self.0.as_str().is_empty()
    }

    /// Both identifiers have the same text.
    pub fn same(&self, other: &NetworkId) -> (r: bool)
        ensures
            r == (self.0@ == other.0@),
    {
        self.0 == other.0
    }

    /// A copy with the same text.
    pub fn duplicate(&self) -> (r: NetworkId)
        ensures
            r.0@ == self.0@,
    {
        NetworkId(self.0.clone())
    }
}

/// Identifies a pathway within a station.
#[derive(Clone, Debug, PartialEq, Eq, PartialOrd, Ord, Hash)]
pub struct PathwayId(pub String);

impl PathwayId {
    /// The identifier with the given text.
    pub fn new(s: &str) -> (r: PathwayId)
        ensures
            r.0@ == s@,
    {
        PathwayId(String::from_str(s))
    }

    /// The identifier's text.
    pub fn as_str(&self) -> (r: &str)
        ensures
            r@ == self.0@,
    {
        self.0.as_str()
    }

    /// The text is empty.
    pub fn is_empty(&self) -> (r: bool)
        ensures
            r == (self.0@.len() == 0),
    {
        self.0.as_str().is_empty()
    }

    /// Both identifiers have the same text.
    pub fn same(&self, other: &PathwayId) -> (r: bool)
        ensures
            r == (self.0@ == other.0@),
    {
        self.0 == other.0
    }

    /// A copy with the same text.
    pub fn duplicate(&self) -> (r: PathwayId)
        ensures
            r.0@ == self.0@,
    {
        PathwayId(self.0.clone())
    }
}

/// Identifies a route.
#[derive(Clone, Debug, PartialEq, Eq, PartialOrd, Ord, Hash)]
pub struct RouteId(pub String);

impl RouteId {
    /// The identifier with the given text.
    pub fn new(s: &str) -> (r: RouteId)
        ensures
            r.0@ == s@,
    {
        RouteId(String::from_str(s))
    }

    /// The identifier's text.
    pub fn as_str(&self) -> (r: &str)
        ensures
            r@ == self.0@,
    {
        self.0.as_str()
    }

    /// The text is empty.
    pub fn is_empty(&self) -> (r: bool)
        ensures
            r == (self.0@.len() == 0),
    {
        self.0.as_str().is_empty()
    }

    /// Both identifiers have the same text.
    pub fn same(&self, other: &RouteId) -> (r: bool)
        ensures
            r == (self.0@ == other.0@),
    {
        self.0 == other.0
    }

    /// A copy with the same text.
    pub fn duplicate(&self) -> (r: RouteId)
        ensures
            r.0@ == self.0@,
    {
        RouteId(self.0.clone())
    }
}

/// Identifies a shape: the path that a vehicle travels.
#[derive(Clone, Debug, PartialEq, Eq, PartialOrd, Ord, Hash)]
pub struct ShapeId(pub String);

impl ShapeId {
    /// The identifier with the given text.
    pub fn new(s: &str) -> (r: ShapeId)
        ensures
            r.0@ == s@,
    {
        ShapeId(String::from_str(s))
    }

    /// The identifier's text.
    pub fn as_str(&self) -> (r: &str)
        ensures
            r@ == self.0@,
    {
        self.0.as_str()
    }

    /// The text is empty.
    pub fn is_empty(&self) -> (r: bool)
        ensures
            r == (self.0@.len() == 0),
    {
        self.0.as_str().is_empty()
    }

    /// Both identifiers have the same text.
    pub fn same(&self, other: &ShapeId) -> (r: bool)
        ensures
            r == (self.0@ == other.0@),
    {
        self.0 == other.0
    }

    /// A copy with the same text.
    pub fn duplicate(&self) -> (r: ShapeId)
        ensures
            r.0@ == self.0@,
    {
        ShapeId(self.0.clone())
    }
}

/// Identifies a location: stop or platform, station, entrance or exit, generic node or boarding area.
#[derive(Clone, Debug, PartialEq, Eq, PartialOrd, Ord, Hash)]
pub struct StopId(pub String);

impl StopId {
    /// The identifier with the given text.
    pub fn new(s: &str) -> (r: StopId)
        ensures
            r.0@ == s@,
    {
        StopId(String::from_str(s))
    }

    /// The identifier's text.
    pub fn as_str(&self) -> (r: &str)
        ensures
            r@ == self.0@,
    {
        self.0.as_str()
    }

    /// The text is empty.
    pub fn is_empty(&self) -> (r: bool)
        ensures
            r == (self.0@.len() == 0),
    {
        self.0.as_str().is_empty()
    }

    /// Both identifiers have the same text.
    pub fn same(&self, other: &StopId) -> (r: bool)
        ensures
            r == (self.0@ == other.0@),
    {
        self.0 == other.0
    }

    /// A copy with the same text.
    pub fn duplicate(&self) -> (r: StopId)
        ensures
            r.0@ == self.0@,
    {
        StopId(self.0.clone())
    }
}

/// Identifies a group of timeframes.
#[derive(Clone, Debug, PartialEq, Eq, PartialOrd, Ord, Hash)]
pub struct TimeframeGroupId(pub String);

impl TimeframeGroupId {
    /// The identifier with the given text.
    pub fn new(s: &str) -> (r: TimeframeGroupId)
        ensures
            r.0@ == s@,
    {
        TimeframeGroupId(String::from_str(s))
    }

    /// The identifier's text.
    pub fn as_str(&self) -> (r: &str)
        ensures
            r@ == self.0@,
    {
        self.0.as_str()
    }

    /// The text is empty.
    pub fn is_empty(&self) -> (r: bool)
        ensures
            r == (self.0@.len() == 0),
    {
        self.0.as_str().is_empty()
    }

    /// Both identifiers have the same text.
    pub fn same(&self, other: &TimeframeGroupId) -> (r: bool)
        ensures
            r == (self.0@ == other.0@),
    {
        self.0 == other.0
    }

    /// A copy with the same text.
    pub fn duplicate(&self) -> (r: TimeframeGroupId)
        ensures
            r.0@ == self.0@,
    {
        TimeframeGroupId(self.0.clone())
    }
}

/// Identifies a trip.
#[derive(Clone, Debug, PartialEq, Eq, PartialOrd, Ord, Hash)]
pub struct TripId(pub String);

impl TripId {
    /// The identifier with the given text.
    pub fn new(s: &str) -> (r: TripId)
        ensures
            r.0@ == s@,
    {
        TripId(String::from_str(s))
    }

    /// The identifier's text.
    pub fn as_str(&self) -> (r: &str)
        ensures
            r@ == self.0@,
    {
        self.0.as_str()
    }

    /// The text is empty.
    pub fn is_empty(&self) -> (r: bool)
        ensures
            r == (self.0@.len() == 0),
    {
        self.0.as_str().is_empty()
    }

    /// Both identifiers have the same text.
    pub fn same(&self, other: &TripId) -> (r: bool)
        ensures
            r == (self.0@ == other.0@),
    {
        self.0 == other.0
    }

    /// A copy with the same text.
    pub fn duplicate(&self) -> (r: TripId)
        ensures
            r.0@ == self.0@,
    {
        TripId(self.0.clone())
    }
}

} // verus!
