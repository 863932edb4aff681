use gtfs_schedule::agency::Agency;
use gtfs_schedule::booking_rule::{BookingRule, BookingType};
use gtfs_schedule::calendar::{Calendar, CalendarDayService};
use gtfs_schedule::error::{Error, SchemaValidationErrorKind};
use gtfs_schedule::fares::{
    FareAttribute, FarePaymentMethod, FareTransferRule, FareTransferType, FareTransfers, Timeframe,
};
use gtfs_schedule::feed_info::{Attribution, FeedInfo};
use gtfs_schedule::ids::{
    AgencyId, AreaId, BookingRuleId, CalendarServiceId, FareId, FareLegRuleId, PathwayId, RouteId,
    ShapeId, StopId, TimeframeGroupId, TripId,
};
use gtfs_schedule::route::{Route, RouteType};
use gtfs_schedule::schemas::{ContinuousPickup, LocationType};
use gtfs_schedule::shape::{ExactTimes, Frequency, Shape};
use gtfs_schedule::station::{Area, Pathway, PathwayMode};
use gtfs_schedule::stop::Stop;
use gtfs_schedule::stop_time::{DropOffType, PickupType, StopTime, Timepoint};
use gtfs_schedule::transfer::{Transfer, TransferType};
use gtfs_schedule::translation::{TableName, Translation};
use gtfs_schedule::trip::Trip;
use gtfs_schedule::values::{GtfsCoord, GtfsDate, Measure, NaiveServiceTime};

fn fault(r: Result<(), Error>) -> Option<(&'static str, String)> {
    match r {
        Ok(()) => None,
        Err(Error::SchemaValidationError(e)) => Some(match e.kind {
            SchemaValidationErrorKind::MissingValue { field_name, .. } => ("missing", field_name),
            SchemaValidationErrorKind::ForbiddenValue { field_name, .. } => ("forbidden", field_name),
            SchemaValidationErrorKind::InvalidValue { field_name, .. } => ("invalid", field_name),
        }),
        Err(other) => panic!("not a schema error: {:?}", other),
    }
}

fn is(r: Result<(), Error>, kind: &str, field: &str) {
    assert_eq!(fault(r), Some((kind_static(kind), field.to_string())));
}

fn kind_static(kind: &str) -> &'static str {
    match kind {
        "missing" => "missing",
        "forbidden" => "forbidden",
        _ => "invalid",
    }
}

fn m(x: f64) -> Measure {
    Measure::from_bits(x.to_bits())
}

fn t(s: &str) -> NaiveServiceTime {
    NaiveServiceTime::parse(s).unwrap()
}

fn coord() -> GtfsCoord {
    GtfsCoord { lat: m(48.85), lon: m(2.35) }
}

fn stop(id: &str, lt: Option<LocationType>, parent: Option<&str>) -> Stop {
    Stop {
        stop_id: StopId::new(id),
        stop_code: None,
        stop_name: Some(format!("Stop {}", id)),
        tts_stop_name: None,
        stop_desc: None,
        stop_coord: Some(coord()),
        zone_id: None,
        stop_url: None,
        location_type: lt,
        parent_station: parent.map(StopId::new),
        stop_timezone: None,
        wheelchair_boarding: None,
        level_id: None,
        platform_code: None,
    }
}

fn stop_time(trip: &str, seq: u32) -> StopTime {
    StopTime {
        trip_id: TripId::new(trip),
        arrival_time: Some(t("08:00:00")),
        departure_time: Some(t("08:00:00")),
        stop_id: Some(StopId::new("S")),
        location_group_id: None,
        location_id: None,
        stop_sequence: seq,
        stop_headsign: None,
        start_pickup_drop_off_window: None,
        end_pickup_drop_off_window: None,
        pickup_type: None,
        drop_off_type: None,
        continuous_pickup: None,
        continuous_drop_off: None,
        shape_dist_traveled: None,
        timepoint: None,
        pickup_booking_rule_id: None,
        drop_off_booking_rule_id: None,
    }
}

fn booking(bt: BookingType) -> BookingRule {
    BookingRule {
        booking_rule_id: BookingRuleId::new("B"),
        booking_type: bt,
        prior_notice_duration_min: None,
        prior_notice_duration_max: None,
        prior_notice_last_day: None,
        prior_notice_last_time: None,
        prior_notice_start_day: None,
        prior_notice_start_time: None,
        prior_notice_service_id: None,
        message: None,
        pickup_message: None,
        drop_off_message: None,
        phone_number: None,
        info_url: None,
        booking_url: None,
    }
}

fn transfer(tt: TransferType) -> Transfer {
    Transfer {
        from_stop_id: None,
        to_stop_id: None,
        from_route_id: None,
        to_route_id: None,
        from_trip_id: None,
        to_trip_id: None,
        transfer_type: tt,
        min_transfer_time: None,
    }
}

fn translation(table: TableName) -> Translation {
    Translation {
        table_name: table,
        field_name: "stop_name".to_string(),
        language: "fr".to_string(),
        translation: "Gare".to_string(),
        record_id: None,
        record_sub_id: None,
        field_value: None,
    }
}

#[test]
fn agency_with_empty_id_is_missing_it() {
    let mut a = Agency {
        agency_id: Some(AgencyId::new("")),
        agency_name: "A".to_string(),
        agency_url: "https://a.example".to_string(),
        agency_timezone: "Europe/Paris".to_string(),
        agency_lang: None,
        agency_phone: None,
        agency_fare_url: None,
        agency_email: None,
    };
    is(a.validate(), "missing", "agency_id");
    a.agency_id = None;
    assert!(a.validate().is_ok());
    a.agency_id = Some(AgencyId::new("A"));
    assert!(a.validate().is_ok());
}

#[test]
fn stop_rules_by_location_type() {
    assert!(stop("S", None, None).validate().is_ok());
    let mut s = stop("S", Some(LocationType::StopOrPlatform), None);
    s.stop_name = None;
    is(s.validate(), "missing", "stop_name");
    let mut s = stop("S", None, None);
    s.stop_coord = None;
    is(s.validate(), "missing", "stop_coord");
    is(stop("E", Some(LocationType::EntranceOrExit), None).validate(), "missing", "parent_station");
    is(stop("B", Some(LocationType::BoardingArea), None).validate(), "missing", "parent_station");
    is(stop("ST", Some(LocationType::Station), Some("X")).validate(), "forbidden", "parent_station");
    let mut node = stop("N", Some(LocationType::GenericNode), Some("ST"));
    node.stop_name = None;
    node.stop_coord = None;
    assert!(node.validate().is_ok());
}

#[test]
fn route_needs_a_name() {
    let mut r = Route {
        route_id: RouteId::new("R"),
        agency_id: None,
        route_short_name: None,
        route_long_name: None,
        route_desc: None,
        route_type: RouteType::Bus,
        route_url: None,
        route_color: None,
        route_text_color: None,
        route_sort_order: None,
        continuous_pickup: Some(ContinuousPickup::ContinuousStopping),
        continuous_drop_off: None,
        network_id: None,
    };
    is(r.validate(), "missing", "route_short_name or route_long_name");
    r.route_long_name = Some("Long".to_string());
    assert!(r.validate().is_ok());
    assert!(r.is_continuous());
    r.route_id = RouteId::new("");
    is(r.validate(), "missing", "route_id");
}

#[test]
fn trip_identifiers_are_required() {
    let mut tr = Trip {
        route_id: RouteId::new("R"),
        service_id: CalendarServiceId::new(""),
        trip_id: TripId::new("T"),
        trip_headsign: None,
        trip_short_name: None,
        direction_id: None,
        block_id: None,
        shape_id: None,
        wheelchair_accessible: None,
        bikes_allowed: None,
    };
    is(tr.validate(), "missing", "service_id");
    tr.service_id = CalendarServiceId::new("S");
    assert!(tr.validate().is_ok());
}

#[test]
fn calendar_start_after_end_is_invalid() {
    let day = CalendarDayService::Available;
    let mut c = Calendar {
        service_id: CalendarServiceId::new("S"),
        monday: day,
        tuesday: day,
        wednesday: day,
        thursday: day,
        friday: day,
        saturday: CalendarDayService::NotAvailable,
        sunday: CalendarDayService::NotAvailable,
        start_date: GtfsDate { year: 2024, month: 2, day: 1 },
        end_date: GtfsDate { year: 2024, month: 1, day: 31 },
    };
    is(c.validate(), "invalid", "start_date");
    c.end_date = GtfsDate { year: 2024, month: 2, day: 1 };
    assert!(c.validate().is_ok());
}

#[test]
fn booking_rule_conditions() {
    is(booking(BookingType::SameDayWithNotice).validate(), "missing", "prior_notice_duration_min");
    let mut b = booking(BookingType::RealTime);
    b.prior_notice_duration_min = Some(30);
    is(b.validate(), "forbidden", "prior_notice_duration_min");
    let mut b = booking(BookingType::RealTime);
    b.prior_notice_duration_max = Some(30);
    is(b.validate(), "forbidden", "prior_notice_duration_max");
    is(booking(BookingType::PriorDaysWithNotice).validate(), "missing", "prior_notice_last_day");
    let mut b = booking(BookingType::PriorDaysWithNotice);
    b.prior_notice_last_day = Some(1);
    is(b.validate(), "missing", "prior_notice_last_time");
    b.prior_notice_last_time = Some(t("17:00:00"));
    assert!(b.validate().is_ok());
    b.prior_notice_start_day = Some(7);
    is(b.validate(), "missing", "prior_notice_start_time");
    b.prior_notice_start_time = Some(t("08:00:00"));
    b.prior_notice_service_id = Some(CalendarServiceId::new("S"));
    assert!(b.validate().is_ok());
    let mut b = booking(BookingType::RealTime);
    b.prior_notice_start_day = Some(1);
    is(b.validate(), "forbidden", "prior_notice_start_day");
    let mut b = booking(BookingType::RealTime);
    b.prior_notice_service_id = Some(CalendarServiceId::new("S"));
    is(b.validate(), "forbidden", "prior_notice_service_id");
    let mut b = booking(BookingType::SameDayWithNotice);
    b.prior_notice_duration_min = Some(30);
    b.prior_notice_start_time = Some(t("08:00:00"));
    is(b.validate(), "forbidden", "prior_notice_start_time");
    let mut b = booking(BookingType::RealTime);
    b.booking_rule_id = BookingRuleId::new("");
    is(b.validate(), "missing", "booking_rule_id");
}

#[test]
fn frequency_exact_times_need_room_for_a_headway() {
    let mut f = Frequency {
        trip_id: TripId::new("T"),
        start_time: t("08:00:00"),
        end_time: t("09:00:00"),
        headway_secs: 3600,
        exact_times: Some(ExactTimes::Exact),
    };
    is(f.validate(), "invalid", "end_time");
    f.headway_secs = 3599;
    assert!(f.validate().is_ok());
    f.exact_times = Some(ExactTimes::Approximate);
    f.headway_secs = 7200;
    assert!(f.validate().is_ok());
    f.end_time = t("07:00:00");
    is(f.validate(), "invalid", "start_time or end_time");
}

#[test]
fn pathway_rules() {
    let mut p = Pathway {
        pathway_id: PathwayId::new("X"),
        from_stop_id: StopId::new("s1"),
        to_stop_id: StopId::new("s2"),
        pathway_mode: PathwayMode::ExitGate,
        is_bidirectional: true,
        length: None,
        traversal_time: None,
        stair_count: None,
        max_slope: None,
        min_width: None,
        signposted_as: None,
        reversed_signposted_as: None,
    };
    is(p.validate(), "invalid", "is_bidirectional");
    p.is_bidirectional = false;
    assert!(p.validate().is_ok());
    p.length = Some(m(-1.0));
    is(p.validate(), "invalid", "length");
    p.length = Some(m(0.0));
    p.min_width = Some(m(-0.5));
    is(p.validate(), "invalid", "min_width");
    p.min_width = None;
    p.to_stop_id = StopId::new("");
    is(p.validate(), "missing", "from_stop_id or to_stop_id");
}

#[test]
fn shape_distance_is_not_negative() {
    let mut s = Shape {
        shape_id: ShapeId::new("SH"),
        shape_pt: coord(),
        shape_pt_sequence: 1,
        shape_dist_traveled: Some(m(-3.0)),
    };
    is(s.validate(), "invalid", "shape_dist_traveled");
    s.shape_dist_traveled = Some(m(0.0));
    assert!(s.validate().is_ok());
}

#[test]
fn stop_time_location_rules() {
    let mut st = stop_time("T", 1);
    st.location_id = Some("L".to_string());
    is(st.check(), "forbidden", "location_group_id and/or location_id");
    let mut st = stop_time("T", 1);
    st.stop_id = None;
    is(st.check(), "missing", "stop_id, location_group_id, or location_id");
    let mut st = stop_time("T", 1);
    st.shape_dist_traveled = Some(m(-1.0));
    is(st.check(), "invalid", "shape_dist_traveled");
    let mut st = stop_time("", 1);
    is(st.validate(), "missing", "trip_id");
}

#[test]
fn stop_time_windows_and_defaults() {
    let mut st = stop_time("T", 1);
    st.timepoint = Some(Timepoint::Exact);
    st.arrival_time = None;
    is(st.check(), "missing", "arrival_time or departure_time");

    let mut st = stop_time("T", 1);
    st.start_pickup_drop_off_window = Some(t("08:00:00"));
    is(st.check(), "forbidden", "arrival_time or departure_time");
    st.arrival_time = None;
    st.departure_time = None;
    st.continuous_pickup = Some(ContinuousPickup::ContinuousStopping);
    is(st.check(), "forbidden", "continuous_pickup or continuous_drop_off");
    st.continuous_pickup = None;
    st.pickup_type = Some(PickupType::MustCoordinateWithDriver);
    st.drop_off_type = Some(DropOffType::RegularlyScheduled);
    assert!(st.validate().is_ok());
    assert_eq!(st.pickup_type, None);
    assert_eq!(st.drop_off_type, None);

    let mut plain = stop_time("T", 2);
    assert!(plain.validate().is_ok());
    assert_eq!(plain.pickup_type, Some(PickupType::RegularlyScheduled));
    assert_eq!(plain.drop_off_type, Some(DropOffType::RegularlyScheduled));
    let mut phone = stop_time("T", 3);
    phone.pickup_type = Some(PickupType::MustPhoneAgency);
    assert!(phone.validate().is_ok());
    assert_eq!(phone.pickup_type, Some(PickupType::MustPhoneAgency));
}

#[test]
fn transfer_endpoint_rules() {
    is(transfer(TransferType::InSeatTransfer).validate(), "missing", "from_stop_id or to_stop_id");
    let mut tr = transfer(TransferType::NoInSeatTransfer);
    tr.from_stop_id = Some(StopId::new("A"));
    is(tr.validate(), "forbidden", "from_stop_id or to_stop_id");
    let mut tr = transfer(TransferType::InSeatTransfer);
    tr.from_stop_id = Some(StopId::new("A"));
    tr.to_stop_id = Some(StopId::new("B"));
    is(tr.validate(), "missing", "from_trip_id or to_trip_id");
    tr.from_trip_id = Some(TripId::new("T1"));
    tr.to_trip_id = Some(TripId::new("T2"));
    assert!(tr.validate().is_ok());
    assert!(transfer(TransferType::RecommendedTransferPoint).validate().is_ok());
    let mut tr = transfer(TransferType::NoTransferPossible);
    tr.from_stop_id = Some(StopId::new(""));
    tr.to_stop_id = Some(StopId::new("B"));
    is(tr.validate(), "missing", "from_stop_id or to_stop_id");
}

#[test]
fn translation_reference_rules() {
    let mut tr = translation(TableName::FeedInfo);
    assert!(tr.validate().is_ok());
    tr.record_id = Some("x".to_string());
    is(tr.validate(), "forbidden", "record_id, record_sub_id, or field_value");
    is(translation(TableName::Stops).validate(), "missing", "record_id and/or field_value");
    let mut tr = translation(TableName::Stops);
    tr.record_id = Some("S".to_string());
    tr.field_value = Some("Gare".to_string());
    is(tr.validate(), "forbidden", "record_id and field_value");
    let mut tr = translation(TableName::StopTimes);
    tr.record_id = Some("T".to_string());
    is(tr.validate(), "missing", "record_sub_id");
    let mut tr = translation(TableName::Stops);
    tr.translation = String::new();
    is(tr.validate(), "missing", "translation");
}

#[test]
fn timeframe_and_fare_transfer_rules() {
    let mut tf = Timeframe {
        timeframe_group_id: TimeframeGroupId::new("G"),
        start_time: Some(t("09:00:00")),
        end_time: None,
        service_id: CalendarServiceId::new("S"),
    };
    is(tf.validate(), "missing", "end_time");
    tf.end_time = Some(t("08:00:00"));
    is(tf.validate(), "invalid", "start_time or end_time");
    tf.end_time = Some(t("10:00:00"));
    assert!(tf.validate().is_ok());

    let mut ft = FareTransferRule {
        from_leg_group_id: Some(FareLegRuleId::new("L1")),
        to_leg_group_id: Some(FareLegRuleId::new("L2")),
        transfer_count: Some(1),
        duration_limit: None,
        duration_limit_type: None,
        fare_transfer_type: FareTransferType::TransferOnly,
        fare_product_id: None,
    };
    is(ft.validate(), "invalid", "transfer_count");
    ft.to_leg_group_id = Some(FareLegRuleId::new("L1"));
    assert!(ft.validate().is_ok());
    ft.transfer_count = None;
    is(ft.validate(), "forbidden", "transfer_count");
}

#[test]
fn feed_info_attribution_area_and_fare_rules() {
    let mut fi = FeedInfo {
        feed_publisher_name: "P".to_string(),
        feed_publisher_url: "https://p.example".to_string(),
        feed_lang: "en".to_string(),
        default_lang: None,
        feed_start_date: Some(GtfsDate { year: 2025, month: 1, day: 1 }),
        feed_end_date: Some(GtfsDate { year: 2024, month: 12, day: 31 }),
        feed_version: None,
        feed_contact_email: None,
        feed_contact_url: None,
    };
    is(fi.validate(), "invalid", "feed_start_date or feed_end_date");
    fi.feed_end_date = None;
    assert!(fi.validate().is_ok());

    let at = Attribution {
        attribution_id: None,
        agency_id: None,
        route_id: None,
        trip_id: None,
        organization_name: String::new(),
        is_producer: None,
        is_operator: None,
        is_authority: None,
        attribution_url: None,
        attribution_email: None,
        attribution_phone: None,
    };
    is(at.validate(), "missing", "organization_name");

    is(Area { area_id: AreaId::new(""), area_name: None }.validate(), "missing", "area_id");

    let fa = FareAttribute {
        fare_id: FareId::new("F"),
        price: m(-2.0),
        currency_type: "EUR".to_string(),
        payment_method: FarePaymentMethod::OnBoard,
        transfers: FareTransfers::NoTransfers,
        agency_id: None,
        transfer_duration: None,
    };
    is(fa.validate(), "invalid", "price");
}

#[test]
fn positions_lie_on_the_globe() {
    let mut s = stop("S", None, None);
    s.stop_coord = Some(GtfsCoord { lat: m(90.0), lon: m(-180.0) });
    assert!(s.validate().is_ok());
    s.stop_coord = Some(GtfsCoord { lat: m(90.5), lon: m(0.0) });
    is(s.validate(), "invalid", "stop_coord");
    s.stop_coord = Some(GtfsCoord { lat: m(-90.0), lon: m(180.0001) });
    is(s.validate(), "invalid", "stop_coord");
    let mut p = Shape {
        shape_id: ShapeId::new("SH"),
        shape_pt: GtfsCoord { lat: m(-91.0), lon: m(0.0) },
        shape_pt_sequence: 1,
        shape_dist_traveled: None,
    };
    is(p.validate(), "invalid", "shape_pt");
    p.shape_pt = GtfsCoord { lat: m(-90.0), lon: m(180.0) };
    assert!(p.validate().is_ok());
    assert!(NaiveServiceTime::parse("23:00:00").unwrap() < NaiveServiceTime::parse("25:00:00").unwrap());
}

#[test]
fn same_day_booking_with_longest_notice_has_no_start_day() {
    let mut b = booking(BookingType::SameDayWithNotice);
    b.prior_notice_duration_min = Some(30);
    b.prior_notice_duration_max = Some(120);
    assert!(b.validate().is_ok());
    b.prior_notice_start_day = Some(1);
    b.prior_notice_start_time = Some(t("08:00:00"));
    let r = b.validate();
    match &r {
        Err(Error::SchemaValidationError(e)) => match &e.schema_instance {
            gtfs_schedule::schemas::Schema::BookingRule(x) => {
                assert_eq!(x.booking_rule_id.as_str(), "B");
                assert_eq!(x.prior_notice_start_day, Some(1));
            },
            other => panic!("unexpected record {:?}", other),
        },
        other => panic!("unexpected result {:?}", other),
    }
    is(r, "forbidden", "prior_notice_start_day");
}
