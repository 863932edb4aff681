//! Enumerations shared by several tables, and the union of all record types
//! that diagnostics carry.
use vstd::prelude::*;

use crate::agency::Agency;
use crate::booking_rule::BookingRule;
use crate::calendar::{Calendar, CalendarDate};
use crate::fares::{FareAttribute, FareLegRule, FareMedia, FareProduct, FareRule, FareTransferRule, Timeframe};
use crate::feed_info::{Attribution, FeedInfo};
use crate::station::{Area, Level, LocationGroup, LocationGroupStop, Network, Pathway, RouteNetwork, StopArea};
use crate::route::Route;
use crate::shape::{Frequency, Shape};
use crate::stop::Stop;
use crate::stop_time::StopTime;
use crate::transfer::Transfer;
use crate::translation::Translation;
use crate::trip::Trip;

verus! {

/// The type of a location.
#[derive(Clone, Copy, Debug, PartialEq, Eq, Hash, Structural)]
pub enum LocationType {
    /// Where passengers board or alight (code 0); a platform inside a station.
    StopOrPlatform,
    /// A structure that contains platforms (code 1).
    Station,
    /// Where passengers enter or leave a station from the street (code 2).
    EntranceOrExit,
    /// A location within a station that links pathways (code 3).
    GenericNode,
    /// A place on a platform where passengers board or alight (code 4).
    BoardingArea,
}

impl LocationType {
    /// The type with the given code, if any.
    pub fn from_code(code: u8) -> (r: Option<LocationType>)
        ensures
            code == 0 ==> r == Some(LocationType::StopOrPlatform),
            code == 1 ==> r == Some(LocationType::Station),
            code == 2 ==> r == Some(LocationType::EntranceOrExit),
            code == 3 ==> r == Some(LocationType::GenericNode),
            code == 4 ==> r == Some(LocationType::BoardingArea),
            code > 4 ==> r is None,
    {
        if code == 0 {
            Some(LocationType::StopOrPlatform)
        } else if code == 1 {
            Some(LocationType::Station)
        } else if code == 2 {
            Some(LocationType::EntranceOrExit)
        } else if code == 3 {
            Some(LocationType::GenericNode)
        } else if code == 4 {
            Some(LocationType::BoardingArea)
        } else {
            None
        }
    }
}

/// Whether riders may board anywhere along the vehicle's path.
#[derive(Clone, Copy, Debug, PartialEq, Eq, Hash, Structural)]
pub enum ContinuousPickup {
    ContinuousStopping,
    NoContinuousStopping,
    PhoneAgencyToArrange,
    CoordinateWithDriver,
}

impl ContinuousPickup {
    /// The value with the given code (0 to 3), if any.
    pub fn from_code(code: u8) -> (r: Option<ContinuousPickup>)
        ensures
            code == 0 ==> r == Some(ContinuousPickup::ContinuousStopping),
            code == 1 ==> r == Some(ContinuousPickup::NoContinuousStopping),
            code == 2 ==> r == Some(ContinuousPickup::PhoneAgencyToArrange),
            code == 3 ==> r == Some(ContinuousPickup::CoordinateWithDriver),
            (code > 3) ==> r is None,
    {
        if code == 0 {
            Some(ContinuousPickup::ContinuousStopping)
        } else if code == 1 {
            Some(ContinuousPickup::NoContinuousStopping)
        } else if code == 2 {
            Some(ContinuousPickup::PhoneAgencyToArrange)
        } else if code == 3 {
            Some(ContinuousPickup::CoordinateWithDriver)
        } else {
            None
        }
    }
}

/// Whether riders may alight anywhere along the vehicle's path.
#[derive(Clone, Copy, Debug, PartialEq, Eq, Hash, Structural)]
pub enum ContinuousDropOff {
    ContinuousStopping,
    NoContinuousStopping,
    PhoneAgencyToArrange,
    CoordinateWithDriver,
}

impl ContinuousDropOff {
    /// The value with the given code (0 to 3), if any.
    pub fn from_code(code: u8) -> (r: Option<ContinuousDropOff>)
        ensures
            code == 0 ==> r == Some(ContinuousDropOff::ContinuousStopping),
            code == 1 ==> r == Some(ContinuousDropOff::NoContinuousStopping),
            code == 2 ==> r == Some(ContinuousDropOff::PhoneAgencyToArrange),
            code == 3 ==> r == Some(ContinuousDropOff::CoordinateWithDriver),
            (code > 3) ==> r is None,
    {
        if code == 0 {
            Some(ContinuousDropOff::ContinuousStopping)
        } else if code == 1 {
            Some(ContinuousDropOff::NoContinuousStopping)
        } else if code == 2 {
            Some(ContinuousDropOff::PhoneAgencyToArrange)
        } else if code == 3 {
            Some(ContinuousDropOff::CoordinateWithDriver)
        } else {
            None
        }
    }
}

/// A record of any table.
#[derive(Clone, Debug)]
pub enum Schema {
    Agency(Agency),
    Area(Area),
    Attribution(Attribution),
    BookingRule(BookingRule),
    Calendar(Calendar),
    CalendarDate(CalendarDate),
    FareAttribute(FareAttribute),
    FareLegRule(FareLegRule),
    FareMedia(FareMedia),
    FareProduct(FareProduct),
    FareRule(FareRule),
    FareTransferRule(FareTransferRule),
    FeedInfo(FeedInfo),
    Frequency(Frequency),
    Level(Level),
    LocationGroup(LocationGroup),
    LocationGroupStop(LocationGroupStop),
    Network(Network),
    Pathway(Pathway),
    Route(Route),
    RouteNetwork(RouteNetwork),
    Shape(Shape),
    Stop(Stop),
    StopArea(StopArea),
    StopTime(StopTime),
    Timeframe(Timeframe),
    Transfer(Transfer),
    Translation(Translation),
    Trip(Trip),
}

} // verus!
