//! Fares: fare attributes and rules, fare media and products, leg and
//! transfer rules, and the timeframes that fares may depend on.
use vstd::prelude::*;

use crate::error::{carries_record, reports_schema_fault, schema_error, Error, SchemaFault};
use crate::ids::{AgencyId, AreaId, CalendarServiceId, FareId, FareLegRuleId, FareMediaId, FareProductId, NetworkId, RouteId, TimeframeGroupId};
use crate::schemas::Schema;
use crate::values::{Measure, NaiveServiceTime};

verus! {

/// When a fare is paid.
#[derive(Clone, Copy, Debug, PartialEq, Eq, Hash, Structural)]
pub enum FarePaymentMethod {
    OnBoard,
    BeforeBoarding,
}

impl FarePaymentMethod {
    /// The value with the given code (0 to 1), if any.
    pub fn from_code(code: u8) -> (r: Option<FarePaymentMethod>)
        ensures
            code == 0 ==> r == Some(FarePaymentMethod::OnBoard),
            code == 1 ==> r == Some(FarePaymentMethod::BeforeBoarding),
            (code > 1) ==> r is None,
    {
        if code == 0 {
            Some(FarePaymentMethod::OnBoard)
        } else if code == 1 {
            Some(FarePaymentMethod::BeforeBoarding)
        } else {
            None
        }
    }
}

/// How many transfers a fare permits.
#[derive(Clone, Copy, Debug, PartialEq, Eq, Hash, Structural)]
pub enum FareTransfers {
    NoTransfers,
    OneTransfer,
    TwoTransfers,
    UnlimitedTransfers,
}

impl FareTransfers {
    /// The value of a cell: 0 to 2 transfers, and absent for unlimited
    /// transfers; any other code is not a value.
    pub fn from_code(code: Option<u8>) -> (r: Option<FareTransfers>)
        ensures
            code is None ==> r == Some(FareTransfers::UnlimitedTransfers),
            code == Some(0u8) ==> r == Some(FareTransfers::NoTransfers),
            code == Some(1u8) ==> r == Some(FareTransfers::OneTransfer),
            code == Some(2u8) ==> r == Some(FareTransfers::TwoTransfers),
            (code is Some && code.unwrap() > 2) ==> r is None,
    {
        match code {
            None => Some(FareTransfers::UnlimitedTransfers),
            Some(c) => if c == 0 {
                Some(FareTransfers::NoTransfers)
            } else if c == 1 {
                Some(FareTransfers::OneTransfer)
            } else if c == 2 {
                Some(FareTransfers::TwoTransfers)
            } else {
                None
            },
        }
    }
}

/// The kind of a fare medium.
#[derive(Clone, Copy, Debug, PartialEq, Eq, Hash, Structural)]
pub enum FareMediaType {
    NoMedium,
    Paper,
    TransitCard,
    PaymentCard,
    MobileApp,
}

impl FareMediaType {
    /// The value with the given code (0 to 4), if any.
    pub fn from_code(code: u8) -> (r: Option<FareMediaType>)
        ensures
            code == 0 ==> r == Some(FareMediaType::NoMedium),
            code == 1 ==> r == Some(FareMediaType::Paper),
            code == 2 ==> r == Some(FareMediaType::TransitCard),
            code == 3 ==> r == Some(FareMediaType::PaymentCard),
            code == 4 ==> r == Some(FareMediaType::MobileApp),
            (code > 4) ==> r is None,
    {
        if code == 0 {
            Some(FareMediaType::NoMedium)
        } else if code == 1 {
            Some(FareMediaType::Paper)
        } else if code == 2 {
            Some(FareMediaType::TransitCard)
        } else if code == 3 {
            Some(FareMediaType::PaymentCard)
        } else if code == 4 {
            Some(FareMediaType::MobileApp)
        } else {
            None
        }
    }
}

/// How long a transfer may take.
#[derive(Clone, Copy, Debug, PartialEq, Eq, Hash, Structural)]
pub enum FareTransferRuleDurationLimit {
    /// At most this many seconds (more than zero).
    WithLimit(u64),
    Unlimited,
}

/// Between which events a transfer's duration is measured.
#[derive(Clone, Copy, Debug, PartialEq, Eq, Hash, Structural)]
pub enum DurationLimitType {
    BetweenDepartureAndArrival,
    BetweenDepartureAndDeparture,
    BetweenArrivalAndDeparture,
    BetweenArrivalAndArrival,
}

impl DurationLimitType {
    /// The value with the given code (0 to 3), if any.
    pub fn from_code(code: u8) -> (r: Option<DurationLimitType>)
        ensures
            code == 0 ==> r == Some(DurationLimitType::BetweenDepartureAndArrival),
            code == 1 ==> r == Some(DurationLimitType::BetweenDepartureAndDeparture),
            code == 2 ==> r == Some(DurationLimitType::BetweenArrivalAndDeparture),
            code == 3 ==> r == Some(DurationLimitType::BetweenArrivalAndArrival),
            (code > 3) ==> r is None,
    {
        if code == 0 {
            Some(DurationLimitType::BetweenDepartureAndArrival)
        } else if code == 1 {
            Some(DurationLimitType::BetweenDepartureAndDeparture)
        } else if code == 2 {
            Some(DurationLimitType::BetweenArrivalAndDeparture)
        } else if code == 3 {
            Some(DurationLimitType::BetweenArrivalAndArrival)
        } else {
            None
        }
    }
}

/// How the cost of a transfer is computed.
#[derive(Clone, Copy, Debug, PartialEq, Eq, Hash, Structural)]
pub enum FareTransferType {
    FromLegPlusTransfer,
    FromLegPlusTransferPlusToLeg,
    TransferOnly,
}

impl FareTransferType {
    /// The value with the given code (0 to 2), if any.
    pub fn from_code(code: u8) -> (r: Option<FareTransferType>)
        ensures
            code == 0 ==> r == Some(FareTransferType::FromLegPlusTransfer),
            code == 1 ==> r == Some(FareTransferType::FromLegPlusTransferPlusToLeg),
            code == 2 ==> r == Some(FareTransferType::TransferOnly),
            (code > 2) ==> r is None,
    {
        if code == 0 {
            Some(FareTransferType::FromLegPlusTransfer)
        } else if code == 1 {
            Some(FareTransferType::FromLegPlusTransferPlusToLeg)
        } else if code == 2 {
            Some(FareTransferType::TransferOnly)
        } else {
            None
        }
    }
}

/// Both leg groups are absent, or both are present with the same text.
pub open spec fn same_leg_group(a: Option<FareLegRuleId>, b: Option<FareLegRuleId>) -> bool {
    match (a, b) {
        (Some(x), Some(y)) => x.0@ == y.0@,
        (None, None) => true,
        _ => false,
    }
}

/// Both leg groups are absent, or both are present with the same text.
fn leg_groups_match(a: &Option<FareLegRuleId>, b: &Option<FareLegRuleId>) -> (r: bool)
    ensures
        r == same_leg_group(*a, *b),
{
    match (a, b) {
        (Some(x), Some(y)) => x.same(y),
        (None, None) => true,
        _ => false,
    }
}

/// A fare class.
#[derive(Clone, Debug)]
pub struct FareAttribute {
    pub fare_id: FareId,
    /// Not negative.
    pub price: Measure,
    /// An ISO 4217 currency code.
    pub currency_type: String,
    pub payment_method: FarePaymentMethod,
    pub transfers: FareTransfers,
    /// Required when the dataset holds more than one agency.
    pub agency_id: Option<AgencyId>,
    /// In seconds.
    pub transfer_duration: Option<u64>,
}

impl FareAttribute {
    /// The first rule of the row that the record breaks.
    pub open spec fn row_fault(&self) -> Option<(SchemaFault, Seq<char>)> {
        if self.fare_id.0@.len() == 0 {
            Some((SchemaFault::Missing, "fare_id"@))
        } else if self.price.spec_is_negative() {
            Some((SchemaFault::Invalid, "price"@))
        } else {
            None
        }
    }

    /// Checks the rules of the row.
    pub fn validate(&self) -> (r: Result<(), Error>)
        ensures
            reports_schema_fault(r, self.row_fault()),
            carries_record(r, Schema::FareAttribute(*self)),
    {
        if self.fare_id.is_empty() {
            return Err(
                schema_error(
                    SchemaFault::Missing,
                    "fare_id",
                    "can never be empty",
                    Schema::FareAttribute(self.copy()),
                ),
            );
        }
        if self.price.is_negative() {
            return Err(
                schema_error(
                    SchemaFault::Invalid,
                    "price",
                    "cannot be negative",
                    Schema::FareAttribute(self.copy()),
                ),
            );
        }
        Ok(())
    }
}

/// Applies a fare class to routes or zones.
#[derive(Clone, Debug)]
pub struct FareRule {
    pub fare_id: FareId,
    pub route_id: Option<RouteId>,
    /// A fare zone.
    pub origin_id: Option<String>,
    /// A fare zone.
    pub destination_id: Option<String>,
    /// A fare zone.
    pub contains_id: Option<String>,
}

impl FareRule {
    /// The first rule of the row that the record breaks.
    pub open spec fn row_fault(&self) -> Option<(SchemaFault, Seq<char>)> {
        if self.fare_id.0@.len() == 0 {
            Some((SchemaFault::Missing, "fare_id"@))
        } else {
            None
        }
    }

    /// Checks the rules of the row.
    pub fn validate(&self) -> (r: Result<(), Error>)
        ensures
            reports_schema_fault(r, self.row_fault()),
            carries_record(r, Schema::FareRule(*self)),
    {
        if self.fare_id.is_empty() {
            return Err(
                schema_error(
                    SchemaFault::Missing,
                    "fare_id",
                    "can never be empty",
                    Schema::FareRule(self.copy()),
                ),
            );
        }
        Ok(())
    }
}

/// A fare medium.
#[derive(Clone, Debug)]
pub struct FareMedia {
    pub fare_media_id: FareMediaId,
    pub fare_media_name: Option<String>,
    pub fare_media_type: FareMediaType,
}

impl FareMedia {
    /// The first rule of the row that the record breaks.
    pub open spec fn row_fault(&self) -> Option<(SchemaFault, Seq<char>)> {
        if self.fare_media_id.0@.len() == 0 {
            Some((SchemaFault::Missing, "fare_media_id"@))
        } else {
            None
        }
    }

    /// Checks the rules of the row.
    pub fn validate(&self) -> (r: Result<(), Error>)
        ensures
            reports_schema_fault(r, self.row_fault()),
            carries_record(r, Schema::FareMedia(*self)),
    {
        if self.fare_media_id.is_empty() {
            return Err(
                schema_error(
                    SchemaFault::Missing,
                    "fare_media_id",
                    "can never be empty",
                    Schema::FareMedia(self.copy()),
                ),
            );
        }
        Ok(())
    }
}

/// A fare product.
#[derive(Clone, Debug)]
pub struct FareProduct {
    pub fare_product_id: FareProductId,
    pub fare_product_name: Option<String>,
    pub fare_media_id: Option<FareMediaId>,
    pub amount: Measure,
    /// An ISO 4217 currency code.
    pub currency: String,
}

impl FareProduct {
    /// The first rule of the row that the record breaks.
    pub open spec fn row_fault(&self) -> Option<(SchemaFault, Seq<char>)> {
        if self.fare_product_id.0@.len() == 0 {
            Some((SchemaFault::Missing, "fare_product_id"@))
        } else {
            None
        }
    }

    /// Checks the rules of the row.
    pub fn validate(&self) -> (r: Result<(), Error>)
        ensures
            reports_schema_fault(r, self.row_fault()),
            carries_record(r, Schema::FareProduct(*self)),
    {
        if self.fare_product_id.is_empty() {
            return Err(
                schema_error(
                    SchemaFault::Missing,
                    "fare_product_id",
                    "can never be empty",
                    Schema::FareProduct(self.copy()),
                ),
            );
        }
        Ok(())
    }
}

/// A fare rule for one leg of travel.
#[derive(Clone, Debug)]
pub struct FareLegRule {
    pub leg_group_id: Option<FareLegRuleId>,
    pub network_id: Option<NetworkId>,
    pub from_area_id: Option<AreaId>,
    pub to_area_id: Option<AreaId>,
    pub from_timeframe_group_id: Option<TimeframeGroupId>,
    pub to_timeframe_group_id: Option<TimeframeGroupId>,
    pub fare_product_id: FareProductId,
    pub rule_priority: Option<u32>,
}

impl FareLegRule {
    /// The first rule of the row that the record breaks.
    pub open spec fn row_fault(&self) -> Option<(SchemaFault, Seq<char>)> {
        if self.fare_product_id.0@.len() == 0 {
            Some((SchemaFault::Missing, "fare_product_id"@))
        } else {
            None
        }
    }

    /// Checks the rules of the row.
    pub fn validate(&self) -> (r: Result<(), Error>)
        ensures
            reports_schema_fault(r, self.row_fault()),
            carries_record(r, Schema::FareLegRule(*self)),
    {
        if self.fare_product_id.is_empty() {
            return Err(
                schema_error(
                    SchemaFault::Missing,
                    "fare_product_id",
                    "can never be empty",
                    Schema::FareLegRule(self.copy()),
                ),
            );
        }
        Ok(())
    }
}

/// A fare rule for a transfer between two legs.
#[derive(Clone, Debug)]
pub struct FareTransferRule {
    pub from_leg_group_id: Option<FareLegRuleId>,
    pub to_leg_group_id: Option<FareLegRuleId>,
    /// Only for a transfer between legs of the same group.
    pub transfer_count: Option<i32>,
    pub duration_limit: Option<FareTransferRuleDurationLimit>,
    pub duration_limit_type: Option<DurationLimitType>,
    pub fare_transfer_type: FareTransferType,
    pub fare_product_id: Option<FareProductId>,
}

impl FareTransferRule {
    /// The first rule of the row that the record breaks.
    pub open spec fn row_fault(&self) -> Option<(SchemaFault, Seq<char>)> {
        if self.transfer_count is Some && !same_leg_group(self.from_leg_group_id, self.to_leg_group_id) {
            Some((SchemaFault::Invalid, "transfer_count"@))
        } else if self.transfer_count is None && same_leg_group(self.from_leg_group_id, self.to_leg_group_id) {
            Some((SchemaFault::Forbidden, "transfer_count"@))
        } else if self.duration_limit_type is Some && self.duration_limit is None {
            Some((SchemaFault::Missing, "duration_limit"@))
        } else if self.duration_limit is Some && self.duration_limit_type is None {
            Some((SchemaFault::Missing, "duration_limit_type"@))
        } else {
            None
        }
    }

    /// Checks the rules of the row: a transfer count exactly for transfers
    /// within one leg group, and a duration limit together with its type.
    pub fn validate(&self) -> (r: Result<(), Error>)
        ensures
            reports_schema_fault(r, self.row_fault()),
            carries_record(r, Schema::FareTransferRule(*self)),
    {
        if self.transfer_count.is_some() && !leg_groups_match(&self.from_leg_group_id, &self.to_leg_group_id) {
            return Err(
                schema_error(
                    SchemaFault::Invalid,
                    "transfer_count",
                    "from_leg_group_id and to_leg_group_id are not equal",
                    Schema::FareTransferRule(self.copy()),
                ),
            );
        }
        if self.transfer_count.is_none() && leg_groups_match(&self.from_leg_group_id, &self.to_leg_group_id) {
            return Err(
                schema_error(
                    SchemaFault::Forbidden,
                    "transfer_count",
                    "from_leg_group_id and to_leg_group_id are equal",
                    Schema::FareTransferRule(self.copy()),
                ),
            );
        }
        if self.duration_limit_type.is_some() && self.duration_limit.is_none() {
            return Err(
                schema_error(
                    SchemaFault::Missing,
                    "duration_limit",
                    "duration_limit_type is defined",
                    Schema::FareTransferRule(self.copy()),
                ),
            );
        }
        if self.duration_limit.is_some() && self.duration_limit_type.is_none() {
            return Err(
                schema_error(
                    SchemaFault::Missing,
                    "duration_limit_type",
                    "duration_limit is defined",
                    Schema::FareTransferRule(self.copy()),
                ),
            );
        }
        Ok(())
    }
}

/// A time window of a service, named by its group, that fares may depend on.
#[derive(Clone, Debug)]
pub struct Timeframe {
    pub timeframe_group_id: TimeframeGroupId,
    pub start_time: Option<NaiveServiceTime>,
    pub end_time: Option<NaiveServiceTime>,
    pub service_id: CalendarServiceId,
}

impl Timeframe {
    /// The first rule of the row that the record breaks.
    pub open spec fn row_fault(&self) -> Option<(SchemaFault, Seq<char>)> {
        if self.timeframe_group_id.0@.len() == 0 {
            Some((SchemaFault::Missing, "timeframe_group_id"@))
        } else if self.service_id.0@.len() == 0 {
            Some((SchemaFault::Missing, "service_id"@))
        } else if self.start_time is Some && self.end_time is None {
            Some((SchemaFault::Missing, "end_time"@))
        } else if self.end_time is Some && self.start_time is None {
            Some((SchemaFault::Missing, "start_time"@))
        } else if self.start_time is Some && self.end_time is Some && self.end_time.unwrap().secs < self.start_time.unwrap().secs {
            Some((SchemaFault::Invalid, "start_time or end_time"@))
        } else {
            None
        }
    }

    /// Checks the rules of the row: group and service identifiers, and both
    /// ends of the window or neither, the start no later than the end.
    pub fn validate(&self) -> (r: Result<(), Error>)
        ensures
            reports_schema_fault(r, self.row_fault()),
            carries_record(r, Schema::Timeframe(*self)),
    {
        if self.timeframe_group_id.is_empty() {
            return Err(
                schema_error(
                    SchemaFault::Missing,
                    "timeframe_group_id",
                    "can never be empty",
                    Schema::Timeframe(self.copy()),
                ),
            );
        }
        if self.service_id.is_empty() {
            return Err(
                schema_error(
                    SchemaFault::Missing,
                    "service_id",
                    "can never be empty",
                    Schema::Timeframe(self.copy()),
                ),
            );
        }
        if self.start_time.is_some() && self.end_time.is_none() {
            return Err(
                schema_error(
                    SchemaFault::Missing,
                    "end_time",
                    "start_time is defined",
                    Schema::Timeframe(self.copy()),
                ),
            );
        }
        if self.end_time.is_some() && self.start_time.is_none() {
            return Err(
                schema_error(
                    SchemaFault::Missing,
                    "start_time",
                    "end_time is defined",
                    Schema::Timeframe(self.copy()),
                ),
            );
        }
        if self.start_time.is_some() && self.end_time.is_some() && self.end_time.unwrap().lt(&self.start_time.unwrap()) {
            return Err(
                schema_error(
                    SchemaFault::Invalid,
                    "start_time or end_time",
                    "start_time cannot be greater than end_time",
                    Schema::Timeframe(self.copy()),
                ),
            );
        }
        Ok(())
    }
}

} // verus!
