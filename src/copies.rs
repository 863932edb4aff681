//! Copies of records that keep every field, so that contracts can speak of
//! the copy as of the record itself.
use vstd::prelude::*;

use crate::agency::Agency;
use crate::booking_rule::BookingRule;
use crate::calendar::{Calendar, CalendarDate};
use crate::fares::{FareAttribute, FareLegRule, FareMedia, FareProduct, FareRule, FareTransferRule, Timeframe};
use crate::feed_info::{Attribution, FeedInfo};
use crate::route::Route;
use crate::shape::{Frequency, Shape};
use crate::station::{Area, Level, LocationGroup, LocationGroupStop, Network, Pathway, RouteNetwork, StopArea};
use crate::stop::Stop;
use crate::stop_time::StopTime;
use crate::transfer::Transfer;
use crate::translation::Translation;
use crate::trip::Trip;
use crate::ids::{AgencyId, AreaId, AttributionId, BookingRuleId, CalendarServiceId, FareId, FareLegRuleId, FareMediaId, FareProductId, LevelId, LocationGroupId, NetworkId, PathwayId, RouteId, ShapeId, StopId, TimeframeGroupId, TripId};

verus! {

/// A copy of an optional text.
pub fn copy_text(o: &Option<String>) -> (r: Option<String>)
    ensures
        r == *o,
{
    match o {
        Some(s) => Some(s.clone()),
        None => None,
    }
}

impl Agency {
    /// A copy of the record.
    pub fn copy(&self) -> (r: Agency)
        ensures
            r == *self,
    {
        Agency {
            agency_id: match &self.agency_id {
                Some(x) => Some(AgencyId(x.0.clone())),
                None => None,
            },
            agency_name: self.agency_name.clone(),
            agency_url: self.agency_url.clone(),
            agency_timezone: self.agency_timezone.clone(),
            agency_lang: copy_text(&self.agency_lang),
            agency_phone: copy_text(&self.agency_phone),
            agency_fare_url: copy_text(&self.agency_fare_url),
            agency_email: copy_text(&self.agency_email),
        }
    }
}

impl Area {
    /// A copy of the record.
    pub fn copy(&self) -> (r: Area)
        ensures
            r == *self,
    {
        Area {
            area_id: AreaId(self.area_id.0.clone()),
            area_name: copy_text(&self.area_name),
        }
    }
}

impl Attribution {
    /// A copy of the record.
    pub fn copy(&self) -> (r: Attribution)
        ensures
            r == *self,
    {
        Attribution {
            attribution_id: match &self.attribution_id {
                Some(x) => Some(AttributionId(x.0.clone())),
                None => None,
            },
            agency_id: match &self.agency_id {
                Some(x) => Some(AgencyId(x.0.clone())),
                None => None,
            },
            route_id: match &self.route_id {
                Some(x) => Some(RouteId(x.0.clone())),
                None => None,
            },
            trip_id: match &self.trip_id {
                Some(x) => Some(TripId(x.0.clone())),
                None => None,
            },
            organization_name: self.organization_name.clone(),
            is_producer: self.is_producer,
            is_operator: self.is_operator,
            is_authority: self.is_authority,
            attribution_url: copy_text(&self.attribution_url),
            attribution_email: copy_text(&self.attribution_email),
            attribution_phone: copy_text(&self.attribution_phone),
        }
    }
}

impl BookingRule {
    /// A copy of the record.
    pub fn copy(&self) -> (r: BookingRule)
        ensures
            r == *self,
    {
        BookingRule {
            booking_rule_id: BookingRuleId(self.booking_rule_id.0.clone()),
            booking_type: self.booking_type,
            prior_notice_duration_min: self.prior_notice_duration_min,
            prior_notice_duration_max: self.prior_notice_duration_max,
            prior_notice_last_day: self.prior_notice_last_day,
            prior_notice_last_time: self.prior_notice_last_time,
            prior_notice_start_day: self.prior_notice_start_day,
            prior_notice_start_time: self.prior_notice_start_time,
            prior_notice_service_id: match &self.prior_notice_service_id {
                Some(x) => Some(CalendarServiceId(x.0.clone())),
                None => None,
            },
            message: copy_text(&self.message),
            pickup_message: copy_text(&self.pickup_message),
            drop_off_message: copy_text(&self.drop_off_message),
            phone_number: copy_text(&self.phone_number),
            info_url: copy_text(&self.info_url),
            booking_url: copy_text(&self.booking_url),
        }
    }
}

impl Calendar {
    /// A copy of the record.
    pub fn copy(&self) -> (r: Calendar)
        ensures
            r == *self,
    {
        Calendar {
            service_id: CalendarServiceId(self.service_id.0.clone()),
            monday: self.monday,
            tuesday: self.tuesday,
            wednesday: self.wednesday,
            thursday: self.thursday,
            friday: self.friday,
            saturday: self.saturday,
            sunday: self.sunday,
            start_date: self.start_date,
            end_date: self.end_date,
        }
    }
}

impl CalendarDate {
    /// A copy of the record.
    pub fn copy(&self) -> (r: CalendarDate)
        ensures
            r == *self,
    {
        CalendarDate {
            service_id: CalendarServiceId(self.service_id.0.clone()),
            date: self.date,
            exception_type: self.exception_type,
        }
    }
}

impl FareAttribute {
    /// A copy of the record.
    pub fn copy(&self) -> (r: FareAttribute)
        ensures
            r == *self,
    {
        FareAttribute {
            fare_id: FareId(self.fare_id.0.clone()),
            price: self.price,
            currency_type: self.currency_type.clone(),
            payment_method: self.payment_method,
            transfers: self.transfers,
            agency_id: match &self.agency_id {
                Some(x) => Some(AgencyId(x.0.clone())),
                None => None,
            },
            transfer_duration: self.transfer_duration,
        }
    }
}

impl FareLegRule {
    /// A copy of the record.
    pub fn copy(&self) -> (r: FareLegRule)
        ensures
            r == *self,
    {
        FareLegRule {
            leg_group_id: match &self.leg_group_id {
                Some(x) => Some(FareLegRuleId(x.0.clone())),
                None => None,
            },
            network_id: match &self.network_id {
                Some(x) => Some(NetworkId(x.0.clone())),
                None => None,
            },
            from_area_id: match &self.from_area_id {
                Some(x) => Some(AreaId(x.0.clone())),
                None => None,
            },
            to_area_id: match &self.to_area_id {
                Some(x) => Some(AreaId(x.0.clone())),
                None => None,
            },
            from_timeframe_group_id: match &self.from_timeframe_group_id {
                Some(x) => Some(TimeframeGroupId(x.0.clone())),
                None => None,
            },
            to_timeframe_group_id: match &self.to_timeframe_group_id {
                Some(x) => Some(TimeframeGroupId(x.0.clone())),
                None => None,
            },
            fare_product_id: FareProductId(self.fare_product_id.0.clone()),
            rule_priority: self.rule_priority,
        }
    }
}

impl FareMedia {
    /// A copy of the record.
    pub fn copy(&self) -> (r: FareMedia)
        ensures
            r == *self,
    {
        FareMedia {
            fare_media_id: FareMediaId(self.fare_media_id.0.clone()),
            fare_media_name: copy_text(&self.fare_media_name),
            fare_media_type: self.fare_media_type,
        }
    }
}

impl FareProduct {
    /// A copy of the record.
    pub fn copy(&self) -> (r: FareProduct)
        ensures
            r == *self,
    {
        FareProduct {
            fare_product_id: FareProductId(self.fare_product_id.0.clone()),
            fare_product_name: copy_text(&self.fare_product_name),
            fare_media_id: match &self.fare_media_id {
                Some(x) => Some(FareMediaId(x.0.clone())),
                None => None,
            },
            amount: self.amount,
            currency: self.currency.clone(),
        }
    }
}

impl FareRule {
    /// A copy of the record.
    pub fn copy(&self) -> (r: FareRule)
        ensures
            r == *self,
    {
        FareRule {
            fare_id: FareId(self.fare_id.0.clone()),
            route_id: match &self.route_id {
                Some(x) => Some(RouteId(x.0.clone())),
                None => None,
            },
            origin_id: copy_text(&self.origin_id),
            destination_id: copy_text(&self.destination_id),
            contains_id: copy_text(&self.contains_id),
        }
    }
}

impl FareTransferRule {
    /// A copy of the record.
    pub fn copy(&self) -> (r: FareTransferRule)
        ensures
            r == *self,
    {
        FareTransferRule {
            from_leg_group_id: match &self.from_leg_group_id {
                Some(x) => Some(FareLegRuleId(x.0.clone())),
                None => None,
            },
            to_leg_group_id: match &self.to_leg_group_id {
                Some(x) => Some(FareLegRuleId(x.0.clone())),
                None => None,
            },
            transfer_count: self.transfer_count,
            duration_limit: self.duration_limit,
            duration_limit_type: self.duration_limit_type,
            fare_transfer_type: self.fare_transfer_type,
            fare_product_id: match &self.fare_product_id {
                Some(x) => Some(FareProductId(x.0.clone())),
                None => None,
            },
        }
    }
}

impl FeedInfo {
    /// A copy of the record.
    pub fn copy(&self) -> (r: FeedInfo)
        ensures
            r == *self,
    {
        FeedInfo {
            feed_publisher_name: self.feed_publisher_name.clone(),
            feed_publisher_url: self.feed_publisher_url.clone(),
            feed_lang: self.feed_lang.clone(),
            default_lang: copy_text(&self.default_lang),
            feed_start_date: self.feed_start_date,
            feed_end_date: self.feed_end_date,
            feed_version: copy_text(&self.feed_version),
            feed_contact_email: copy_text(&self.feed_contact_email),
            feed_contact_url: copy_text(&self.feed_contact_url),
        }
    }
}

impl Frequency {
    /// A copy of the record.
    pub fn copy(&self) -> (r: Frequency)
        ensures
            r == *self,
    {
        Frequency {
            trip_id: TripId(self.trip_id.0.clone()),
            start_time: self.start_time,
            end_time: self.end_time,
            headway_secs: self.headway_secs,
            exact_times: self.exact_times,
        }
    }
}

impl Level {
    /// A copy of the record.
    pub fn copy(&self) -> (r: Level)
        ensures
            r == *self,
    {
        Level {
            level_id: LevelId(self.level_id.0.clone()),
            level_index: self.level_index,
            level_name: copy_text(&self.level_name),
        }
    }
}

impl LocationGroup {
    /// A copy of the record.
    pub fn copy(&self) -> (r: LocationGroup)
        ensures
            r == *self,
    {
        LocationGroup {
            location_group_id: LocationGroupId(self.location_group_id.0.clone()),
            location_group_name: copy_text(&self.location_group_name),
        }
    }
}

impl LocationGroupStop {
    /// A copy of the record.
    pub fn copy(&self) -> (r: LocationGroupStop)
        ensures
            r == *self,
    {
        LocationGroupStop {
            location_group_id: LocationGroupId(self.location_group_id.0.clone()),
            stop_id: StopId(self.stop_id.0.clone()),
        }
    }
}

impl Network {
    /// A copy of the record.
    pub fn copy(&self) -> (r: Network)
        ensures
            r == *self,
    {
        Network {
            network_id: NetworkId(self.network_id.0.clone()),
            network_name: copy_text(&self.network_name),
        }
    }
}

impl Pathway {
    /// A copy of the record.
    pub fn copy(&self) -> (r: Pathway)
        ensures
            r == *self,
    {
        Pathway {
            pathway_id: PathwayId(self.pathway_id.0.clone()),
            from_stop_id: StopId(self.from_stop_id.0.clone()),
            to_stop_id: StopId(self.to_stop_id.0.clone()),
            pathway_mode: self.pathway_mode,
            is_bidirectional: self.is_bidirectional,
            length: self.length,
            traversal_time: self.traversal_time,
            stair_count: self.stair_count,
            max_slope: self.max_slope,
            min_width: self.min_width,
            signposted_as: copy_text(&self.signposted_as),
            reversed_signposted_as: copy_text(&self.reversed_signposted_as),
        }
    }
}

impl Route {
    /// A copy of the record.
    pub fn copy(&self) -> (r: Route)
        ensures
            r == *self,
    {
        Route {
            route_id: RouteId(self.route_id.0.clone()),
            agency_id: match &self.agency_id {
                Some(x) => Some(AgencyId(x.0.clone())),
                None => None,
            },
            route_short_name: copy_text(&self.route_short_name),
            route_long_name: copy_text(&self.route_long_name),
            route_desc: copy_text(&self.route_desc),
            route_type: self.route_type,
            route_url: copy_text(&self.route_url),
            route_color: copy_text(&self.route_color),
            route_text_color: copy_text(&self.route_text_color),
            route_sort_order: self.route_sort_order,
            continuous_pickup: self.continuous_pickup,
            continuous_drop_off: self.continuous_drop_off,
            network_id: match &self.network_id {
                Some(x) => Some(NetworkId(x.0.clone())),
                None => None,
            },
        }
    }
}

impl RouteNetwork {
    /// A copy of the record.
    pub fn copy(&self) -> (r: RouteNetwork)
        ensures
            r == *self,
    {
        RouteNetwork {
            network_id: NetworkId(self.network_id.0.clone()),
            route_id: RouteId(self.route_id.0.clone()),
        }
    }
}

impl Shape {
    /// A copy of the record.
    pub fn copy(&self) -> (r: Shape)
        ensures
            r == *self,
    {
        Shape {
            shape_id: ShapeId(self.shape_id.0.clone()),
            shape_pt: self.shape_pt,
            shape_pt_sequence: self.shape_pt_sequence,
            shape_dist_traveled: self.shape_dist_traveled,
        }
    }
}

impl Stop {
    /// A copy of the record.
    pub fn copy(&self) -> (r: Stop)
        ensures
            r == *self,
    {
        Stop {
            stop_id: StopId(self.stop_id.0.clone()),
            stop_code: copy_text(&self.stop_code),
            stop_name: copy_text(&self.stop_name),
            tts_stop_name: copy_text(&self.tts_stop_name),
            stop_desc: copy_text(&self.stop_desc),
            stop_coord: self.stop_coord,
            zone_id: copy_text(&self.zone_id),
            stop_url: copy_text(&self.stop_url),
            location_type: self.location_type,
            parent_station: match &self.parent_station {
                Some(x) => Some(StopId(x.0.clone())),
                None => None,
            },
            stop_timezone: copy_text(&self.stop_timezone),
            wheelchair_boarding: self.wheelchair_boarding,
            level_id: match &self.level_id {
                Some(x) => Some(LevelId(x.0.clone())),
                None => None,
            },
            platform_code: copy_text(&self.platform_code),
        }
    }
}

impl StopArea {
    /// A copy of the record.
    pub fn copy(&self) -> (r: StopArea)
        ensures
            r == *self,
    {
        StopArea {
            area_id: AreaId(self.area_id.0.clone()),
            stop_id: StopId(self.stop_id.0.clone()),
        }
    }
}

impl StopTime {
    /// A copy of the record.
    pub fn copy(&self) -> (r: StopTime)
        ensures
            r == *self,
    {
        StopTime {
            trip_id: TripId(self.trip_id.0.clone()),
            arrival_time: self.arrival_time,
            departure_time: self.departure_time,
            stop_id: match &self.stop_id {
                Some(x) => Some(StopId(x.0.clone())),
                None => None,
            },
            location_group_id: match &self.location_group_id {
                Some(x) => Some(LocationGroupId(x.0.clone())),
                None => None,
            },
            location_id: copy_text(&self.location_id),
            stop_sequence: self.stop_sequence,
            stop_headsign: copy_text(&self.stop_headsign),
            start_pickup_drop_off_window: self.start_pickup_drop_off_window,
            end_pickup_drop_off_window: self.end_pickup_drop_off_window,
            pickup_type: self.pickup_type,
            drop_off_type: self.drop_off_type,
            continuous_pickup: self.continuous_pickup,
            continuous_drop_off: self.continuous_drop_off,
            shape_dist_traveled: self.shape_dist_traveled,
            timepoint: self.timepoint,
            pickup_booking_rule_id: copy_text(&self.pickup_booking_rule_id),
            drop_off_booking_rule_id: copy_text(&self.drop_off_booking_rule_id),
        }
    }
}

impl Timeframe {
    /// A copy of the record.
    pub fn copy(&self) -> (r: Timeframe)
        ensures
            r == *self,
    {
        Timeframe {
            timeframe_group_id: TimeframeGroupId(self.timeframe_group_id.0.clone()),
            start_time: self.start_time,
            end_time: self.end_time,
            service_id: CalendarServiceId(self.service_id.0.clone()),
        }
    }
}

impl Transfer {
    /// A copy of the record.
    pub fn copy(&self) -> (r: Transfer)
        ensures
            r == *self,
    {
        Transfer {
            from_stop_id: match &self.from_stop_id {
                Some(x) => Some(StopId(x.0.clone())),
                None => None,
            },
            to_stop_id: match &self.to_stop_id {
                Some(x) => Some(StopId(x.0.clone())),
                None => None,
            },
            from_route_id: match &self.from_route_id {
                Some(x) => Some(RouteId(x.0.clone())),
                None => None,
            },
            to_route_id: match &self.to_route_id {
                Some(x) => Some(RouteId(x.0.clone())),
                None => None,
            },
            from_trip_id: match &self.from_trip_id {
                Some(x) => Some(TripId(x.0.clone())),
                None => None,
            },
            to_trip_id: match &self.to_trip_id {
                Some(x) => Some(TripId(x.0.clone())),
                None => None,
            },
            transfer_type: self.transfer_type,
            min_transfer_time: self.min_transfer_time,
        }
    }
}

impl Translation {
    /// A copy of the record.
    pub fn copy(&self) -> (r: Translation)
        ensures
            r == *self,
    {
        Translation {
            table_name: self.table_name,
            field_name: self.field_name.clone(),
            language: self.language.clone(),
            translation: self.translation.clone(),
            record_id: copy_text(&self.record_id),
            record_sub_id: copy_text(&self.record_sub_id),
            field_value: copy_text(&self.field_value),
        }
    }
}

impl Trip {
    /// A copy of the record.
    pub fn copy(&self) -> (r: Trip)
        ensures
            r == *self,
    {
        Trip {
            route_id: RouteId(self.route_id.0.clone()),
            service_id: CalendarServiceId(self.service_id.0.clone()),
            trip_id: TripId(self.trip_id.0.clone()),
            trip_headsign: copy_text(&self.trip_headsign),
            trip_short_name: copy_text(&self.trip_short_name),
            direction_id: self.direction_id,
            block_id: copy_text(&self.block_id),
            shape_id: match &self.shape_id {
                Some(x) => Some(ShapeId(x.0.clone())),
                None => None,
            },
            wheelchair_accessible: self.wheelchair_accessible,
            bikes_allowed: self.bikes_allowed,
        }
    }
}

} // verus!
