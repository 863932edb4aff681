//! Transfers between routes, trips and stops.
use vstd::prelude::*;

use crate::error::{carries_record, reports_schema_fault, schema_error, Error, SchemaFault};
use crate::ids::{RouteId, StopId, TripId};
use crate::schemas::Schema;

verus! {

/// The kind of a transfer.
#[derive(Clone, Copy, Debug, PartialEq, Eq, Hash, Structural)]
pub enum TransferType {
    /// Recommended transfer point (code 0, or absent).
    RecommendedTransferPoint,
    /// The departing vehicle waits for the arriving one (code 1).
    TimedTransferPoint,
    /// A minimum transfer time applies (code 2).
    MinimumTimeTransferPoint,
    /// No transfer possible (code 3).
    NoTransferPossible,
    /// The rider stays on board (code 4).
    InSeatTransfer,
    /// The rider must alight and board again (code 5).
    NoInSeatTransfer,
}

impl TransferType {
    /// The value of a cell: absent or 0 means a recommended transfer point,
    /// 1 to 5 the others; any other code is not a value.
    pub fn from_code(code: Option<u8>) -> (r: Option<TransferType>)
        ensures
            (code is None || code == Some(0u8)) ==> r == Some(TransferType::RecommendedTransferPoint),
            code == Some(1u8) ==> r == Some(TransferType::TimedTransferPoint),
            code == Some(2u8) ==> r == Some(TransferType::MinimumTimeTransferPoint),
            code == Some(3u8) ==> r == Some(TransferType::NoTransferPossible),
            code == Some(4u8) ==> r == Some(TransferType::InSeatTransfer),
            code == Some(5u8) ==> r == Some(TransferType::NoInSeatTransfer),
            (code is Some && code.unwrap() > 5) ==> r is None,
    {
        match code {
            None => Some(TransferType::RecommendedTransferPoint),
            Some(c) => if c == 0 {
                Some(TransferType::RecommendedTransferPoint)
            } else if c == 1 {
                Some(TransferType::TimedTransferPoint)
            } else if c == 2 {
                Some(TransferType::MinimumTimeTransferPoint)
            } else if c == 3 {
                Some(TransferType::NoTransferPossible)
            } else if c == 4 {
                Some(TransferType::InSeatTransfer)
            } else if c == 5 {
                Some(TransferType::NoInSeatTransfer)
            } else {
                None
            },
        }
    }
}

/// The stop is absent or has an empty identifier.
pub open spec fn blank_stop(s: Option<StopId>) -> bool {
    s is None || s.unwrap().0@.len() == 0
}

/// The trip is absent or has an empty identifier.
pub open spec fn blank_trip(t: Option<TripId>) -> bool {
    t is None || t.unwrap().0@.len() == 0
}

fn is_blank_stop(s: &Option<StopId>) -> (r: bool)
    ensures
        r == blank_stop(*s),
{
    match s {
        Some(id) => id.is_empty(),
        None => true,
    }
}

fn is_blank_trip(t: &Option<TripId>) -> (r: bool)
    ensures
        r == blank_trip(*t),
{
    match t {
        Some(id) => id.is_empty(),
        None => true,
    }
}

/// A rule for connections between routes, trips or stops.
#[derive(Clone, Debug)]
pub struct Transfer {
    pub from_stop_id: Option<StopId>,
    pub to_stop_id: Option<StopId>,
    pub from_route_id: Option<RouteId>,
    pub to_route_id: Option<RouteId>,
    pub from_trip_id: Option<TripId>,
    pub to_trip_id: Option<TripId>,
    pub transfer_type: TransferType,
    pub min_transfer_time: Option<u32>,
}

impl Transfer {
    /// The first rule of the row that the record breaks.
    pub open spec fn row_fault(&self) -> Option<(SchemaFault, Seq<char>)> {
        if (self.transfer_type == TransferType::InSeatTransfer || self.transfer_type == TransferType::NoTransferPossible) && (blank_stop(self.from_stop_id) || blank_stop(self.to_stop_id)) {
            Some((SchemaFault::Missing, "from_stop_id or to_stop_id"@))
        } else if self.transfer_type == TransferType::NoInSeatTransfer && (!blank_stop(self.from_stop_id) || !blank_stop(self.to_stop_id)) {
            Some((SchemaFault::Forbidden, "from_stop_id or to_stop_id"@))
        } else if (self.transfer_type == TransferType::InSeatTransfer || self.transfer_type == TransferType::NoInSeatTransfer) && (blank_trip(self.from_trip_id) || blank_trip(self.to_trip_id)) {
            Some((SchemaFault::Missing, "from_trip_id or to_trip_id"@))
        } else {
            None
        }
    }

    /// Checks the rules of the row: stop endpoints are required for in-seat
    /// and impossible transfers and forbidden for not-in-seat ones; trip
    /// endpoints are required for both in-seat kinds.
    pub fn validate(&self) -> (r: Result<(), Error>)
        ensures
            reports_schema_fault(r, self.row_fault()),
            carries_record(r, Schema::Transfer(*self)),
    {
        if (self.transfer_type == TransferType::InSeatTransfer || self.transfer_type == TransferType::NoTransferPossible) && (is_blank_stop(&self.from_stop_id) || is_blank_stop(&self.to_stop_id)) {
            return Err(
                schema_error(
                    SchemaFault::Missing,
                    "from_stop_id or to_stop_id",
                    "required when transfer_type is InSeatTransfer or NoTransferPossible",
                    Schema::Transfer(self.copy()),
                ),
            );
        }
        if self.transfer_type == TransferType::NoInSeatTransfer && (!is_blank_stop(&self.from_stop_id) || !is_blank_stop(&self.to_stop_id)) {
            return Err(
                schema_error(
                    SchemaFault::Forbidden,
                    "from_stop_id or to_stop_id",
                    "forbidden when transfer_type is NoInSeatTransfer",
                    Schema::Transfer(self.copy()),
                ),
            );
        }
        if (self.transfer_type == TransferType::InSeatTransfer || self.transfer_type == TransferType::NoInSeatTransfer) && (is_blank_trip(&self.from_trip_id) || is_blank_trip(&self.to_trip_id)) {
            return Err(
                schema_error(
                    SchemaFault::Missing,
                    "from_trip_id or to_trip_id",
                    "required when transfer_type is InSeatTransfer or NoInSeatTransfer",
                    Schema::Transfer(self.copy()),
                ),
            );
        }
        Ok(())
    }
}

} // verus!
