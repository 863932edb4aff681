use gtfs_schedule::agency::Agency;
use gtfs_schedule::calendar::{Calendar, CalendarDate, CalendarDayService, ExceptionType};
use gtfs_schedule::dataset::Dataset;
use gtfs_schedule::error::{DatasetValidationErrorKind, Error, SchemaValidationErrorKind};
use gtfs_schedule::fares::Timeframe;
use gtfs_schedule::feed_info::FeedInfo;
use gtfs_schedule::ids::{
    AgencyId, CalendarServiceId, LevelId, LocationGroupId, PathwayId, RouteId, ShapeId, StopId,
    TimeframeGroupId, TripId,
};
use gtfs_schedule::route::{Route, RouteType};
use gtfs_schedule::schemas::{LocationType, Schema};
use gtfs_schedule::shape::Shape;
use gtfs_schedule::station::{Level, LocationGroup, LocationGroupStop, Pathway, PathwayMode};
use gtfs_schedule::stop::Stop;
use gtfs_schedule::stop_time::StopTime;
use gtfs_schedule::translation::{TableName, Translation};
use gtfs_schedule::trip::Trip;
use gtfs_schedule::values::{GtfsCoord, GtfsDate, Measure, NaiveServiceTime};

fn m(x: f64) -> Measure {
    Measure::from_bits(x.to_bits())
}

fn t(s: &str) -> NaiveServiceTime {
    NaiveServiceTime::parse(s).unwrap()
}

fn agency(id: &str, tz: &str) -> Agency {
    Agency {
        agency_id: Some(AgencyId::new(id)),
        agency_name: format!("Agency {}", id),
        agency_url: "https://agency.example".to_string(),
        agency_timezone: tz.to_string(),
        agency_lang: None,
        agency_phone: None,
        agency_fare_url: None,
        agency_email: None,
    }
}

fn stop(id: &str, lt: Option<LocationType>, parent: Option<&str>) -> Stop {
    Stop {
        stop_id: StopId::new(id),
        stop_code: None,
        stop_name: Some(format!("Stop {}", id)),
        tts_stop_name: None,
        stop_desc: None,
        stop_coord: Some(GtfsCoord { lat: m(-33.87), lon: m(151.21) }),
        zone_id: None,
        stop_url: None,
        location_type: lt,
        parent_station: parent.map(StopId::new),
        stop_timezone: None,
        wheelchair_boarding: None,
        level_id: None,
        platform_code: None,
    }
}

fn route(id: &str) -> Route {
    Route {
        route_id: RouteId::new(id),
        agency_id: None,
        route_short_name: Some(id.to_string()),
        route_long_name: None,
        route_desc: None,
        route_type: RouteType::Bus,
        route_url: None,
        route_color: None,
        route_text_color: None,
        route_sort_order: None,
        continuous_pickup: None,
        continuous_drop_off: None,
        network_id: None,
    }
}

fn trip(id: &str, route: &str, service: &str) -> Trip {
    Trip {
        route_id: RouteId::new(route),
        service_id: CalendarServiceId::new(service),
        trip_id: TripId::new(id),
        trip_headsign: None,
        trip_short_name: None,
        direction_id: None,
        block_id: None,
        shape_id: None,
        wheelchair_accessible: None,
        bikes_allowed: None,
    }
}

fn stop_time(trip: &str, seq: u32, arrival: &str) -> StopTime {
    StopTime {
        trip_id: TripId::new(trip),
        arrival_time: Some(t(arrival)),
        departure_time: Some(t(arrival)),
        stop_id: Some(StopId::new("S")),
        location_group_id: None,
        location_id: None,
        stop_sequence: seq,
        stop_headsign: None,
        start_pickup_drop_off_window: None,
        end_pickup_drop_off_window: None,
        pickup_type: None,
        drop_off_type: None,
        continuous_pickup: None,
        continuous_drop_off: None,
        shape_dist_traveled: None,
        timepoint: None,
        pickup_booking_rule_id: None,
        drop_off_booking_rule_id: None,
    }
}

fn calendar(service: &str) -> Calendar {
    let d = CalendarDayService::Available;
    Calendar {
        service_id: CalendarServiceId::new(service),
        monday: d,
        tuesday: d,
        wednesday: d,
        thursday: d,
        friday: d,
        saturday: d,
        sunday: d,
        start_date: GtfsDate { year: 2024, month: 1, day: 1 },
        end_date: GtfsDate { year: 2024, month: 12, day: 31 },
    }
}

fn feed_info(lang: &str) -> FeedInfo {
    FeedInfo {
        feed_publisher_name: "Publisher".to_string(),
        feed_publisher_url: "https://publisher.example".to_string(),
        feed_lang: lang.to_string(),
        default_lang: None,
        feed_start_date: None,
        feed_end_date: None,
        feed_version: None,
        feed_contact_email: None,
        feed_contact_url: None,
    }
}

fn translation(lang: &str, table: TableName, record: &str) -> Translation {
    Translation {
        table_name: table,
        field_name: "stop_name".to_string(),
        language: lang.to_string(),
        translation: format!("{} {}", record, lang),
        record_id: Some(record.to_string()),
        record_sub_id: None,
        field_value: None,
    }
}

/// One agency, one stop, one route, one trip on a weekly calendar, two stop times.
fn small_feed() -> Dataset {
    let mut ds = Dataset::default();
    ds.agencies.push(agency("A", "Australia/Sydney"));
    ds.stops.push(stop("S", None, None));
    ds.routes.push(route("R"));
    ds.trips.push(trip("T1", "R", "SV"));
    ds.calendar.push(calendar("SV"));
    ds.stop_times.push(stop_time("T1", 1, "08:00:00"));
    ds.stop_times.push(stop_time("T1", 2, "08:05:00"));
    ds
}

fn dataset_fault(r: Result<(), Error>) -> (&'static str, String) {
    match r {
        Err(Error::DatasetValidationError(e)) => match e.kind {
            DatasetValidationErrorKind::PrimaryKeyNotUnique { field_name, .. } => ("primary_key", field_name),
            DatasetValidationErrorKind::ForeignKeyNotFound { field_name, .. } => ("foreign_key", field_name),
            DatasetValidationErrorKind::InconsistentValue { field_name, .. } => ("inconsistent", field_name),
            DatasetValidationErrorKind::InvalidCombination { fields, .. } => ("combination", fields.join(",")),
            DatasetValidationErrorKind::MissingValue { field_name, .. } => ("missing", field_name),
            DatasetValidationErrorKind::OverlappingIntervals { details } => ("overlap", details),
        },
        other => panic!("not a dataset error: {:?}", other),
    }
}

fn expect(r: Result<(), Error>, kind: &str, field: &str) {
    let (k, f) = dataset_fault(r);
    assert_eq!(k, kind);
    assert_eq!(f, field);
}

#[test]
fn small_feed_is_valid() {
    assert!(small_feed().validate(false).is_ok());
    assert!(small_feed().check(false).is_ok());
}

#[test]
fn two_agencies_without_shared_timezone() {
    let mut ds = Dataset::default();
    ds.agencies.push(agency("A", "America/Los_Angeles"));
    ds.agencies.push(agency("B", "America/New_York"));
    ds.calendar.push(calendar("SV"));
    let r = ds.validate(false);
    match &r {
        Err(Error::DatasetValidationError(e)) => match &e.schema_instances[0] {
            Schema::Agency(a) => assert_eq!(a.agency_id.as_ref().unwrap().as_str(), "B"),
            other => panic!("unexpected record {:?}", other),
        },
        other => panic!("unexpected result {:?}", other),
    }
    expect(r, "inconsistent", "agency_timezone");
}

#[test]
fn agencies_need_distinct_identifiers() {
    let mut ds = small_feed();
    ds.agencies.push(agency("A", "Australia/Sydney"));
    expect(ds.validate(false), "primary_key", "agency_id");
    let mut ds = small_feed();
    let mut anonymous = agency("B", "Australia/Sydney");
    anonymous.agency_id = None;
    ds.agencies.push(anonymous);
    expect(ds.validate(false), "missing", "agency_id");
}

#[test]
fn parent_pointing_at_a_platform_without_parent() {
    let mut ds = small_feed();
    ds.stops.push(stop("platform1", Some(LocationType::StopOrPlatform), Some("platform2")));
    ds.stops.push(stop("platform2", Some(LocationType::StopOrPlatform), None));
    expect(ds.validate(false), "inconsistent", "location_type");
}

#[test]
fn parent_chain_with_a_cycle() {
    let mut ds = small_feed();
    ds.stops.push(stop("N1", Some(LocationType::GenericNode), Some("N2")));
    ds.stops.push(stop("N2", Some(LocationType::GenericNode), Some("N1")));
    expect(ds.validate(false), "inconsistent", "parent_station");
}

#[test]
fn parent_chain_to_a_missing_stop_and_platform_under_a_node() {
    let mut ds = small_feed();
    ds.stops.push(stop("E", Some(LocationType::EntranceOrExit), Some("nowhere")));
    expect(ds.validate(false), "foreign_key", "parent_station");

    let mut ds = small_feed();
    ds.stops.push(stop("ST", Some(LocationType::Station), None));
    ds.stops.push(stop("N", Some(LocationType::GenericNode), Some("ST")));
    ds.stops.push(stop("P", None, Some("N")));
    expect(ds.validate(false), "foreign_key", "parent_station");

    let mut ds = small_feed();
    ds.stops.push(stop("ST", Some(LocationType::Station), None));
    ds.stops.push(stop("P", None, Some("ST")));
    ds.stops.push(stop("B", Some(LocationType::BoardingArea), Some("P")));
    assert!(ds.validate(false).is_ok());
}

#[test]
fn stop_level_must_exist() {
    let mut ds = small_feed();
    let mut s = stop("L", None, None);
    s.level_id = Some(LevelId::new("level0"));
    ds.stops.push(s);
    expect(ds.validate(false), "foreign_key", "level_id");
    ds.levels.push(Level { level_id: LevelId::new("level0"), level_index: m(0.0), level_name: None });
    assert!(ds.validate(false).is_ok());
    let level = ds.stop_get_level(&StopId::new("L")).unwrap();
    assert_eq!(level.level_id.as_str(), "level0");
    assert!(ds.stop_get_level(&StopId::new("S")).is_none());
}

#[test]
fn stop_sequence_out_of_arrival_order() {
    let mut ds = small_feed();
    ds.stop_times.clear();
    ds.stop_times.push(stop_time("T1", 1, "08:00:00"));
    ds.stop_times.push(stop_time("T1", 3, "08:10:00"));
    ds.stop_times.push(stop_time("T1", 2, "08:20:00"));
    expect(ds.validate(false), "inconsistent", "stop_sequence");
}

#[test]
fn duplicate_stop_sequence_is_a_primary_key_violation() {
    let mut ds = small_feed();
    ds.stop_times.clear();
    ds.stop_times.push(stop_time("T1", 1, "08:00:00"));
    ds.stop_times.push(stop_time("T1", 2, "08:05:00"));
    ds.stop_times.push(stop_time("T1", 2, "08:10:00"));
    expect(ds.validate(false), "primary_key", "(trip_id, stop_sequence)");
}

#[test]
fn stop_time_distances_must_increase() {
    let mut ds = small_feed();
    ds.stop_times[0].shape_dist_traveled = Some(m(5.0));
    ds.stop_times[1].shape_dist_traveled = Some(m(4.5));
    expect(ds.validate(false), "inconsistent", "shape_dist_traveled");
    ds.stop_times[1].shape_dist_traveled = Some(m(5.5));
    assert!(ds.validate(false).is_ok());
}

#[test]
fn stop_times_reference_known_trips_and_stops() {
    let mut ds = small_feed();
    ds.stop_times.push(stop_time("ghost", 1, "09:00:00"));
    expect(ds.validate(false), "foreign_key", "trip_id");
    let mut ds = small_feed();
    ds.stop_times[1].stop_id = Some(StopId::new("nowhere"));
    expect(ds.validate(false), "foreign_key", "stop_id");
}

#[test]
fn trips_reference_known_routes_and_services() {
    let mut ds = small_feed();
    ds.trips.push(trip("T2", "ghost", "SV"));
    expect(ds.validate(false), "foreign_key", "route_id");
    let mut ds = small_feed();
    ds.trips.push(trip("T2", "R", "ghost"));
    expect(ds.validate(false), "foreign_key", "service_id");
}

#[test]
fn continuous_route_needs_shapes_on_trips() {
    let mut ds = small_feed();
    ds.routes[0].continuous_pickup = Some(gtfs_schedule::schemas::ContinuousPickup::ContinuousStopping);
    expect(ds.validate(false), "missing", "shape_id");
    ds.trips[0].shape_id = Some(ShapeId::new("SH"));
    assert!(ds.validate(false).is_ok());
}

#[test]
fn empty_calendars_and_the_escape_flag() {
    let mut ds = Dataset::default();
    expect(ds.validate(false), "missing", "calendar.txt and calendar_dates.txt");
    assert!(ds.validate(true).is_ok());
    ds.routes.push(route("R"));
    ds.trips.push(trip("T", "R", "D"));
    ds.calendar_dates.push(CalendarDate {
        service_id: CalendarServiceId::new("OTHER"),
        date: GtfsDate { year: 2024, month: 5, day: 1 },
        exception_type: ExceptionType::Added,
    });
    expect(ds.validate(false), "foreign_key", "service_id");
    ds.calendar_dates.push(CalendarDate {
        service_id: CalendarServiceId::new("D"),
        date: GtfsDate { year: 2024, month: 5, day: 2 },
        exception_type: ExceptionType::Added,
    });
    assert!(ds.validate(false).is_ok());
}

#[test]
fn exit_gate_pathway_is_not_bidirectional() {
    let mut ds = small_feed();
    ds.stops.push(stop("s1", None, None));
    ds.stops.push(stop("s2", None, None));
    ds.pathways.push(Pathway {
        pathway_id: PathwayId::new("X"),
        from_stop_id: StopId::new("s1"),
        to_stop_id: StopId::new("s2"),
        pathway_mode: PathwayMode::ExitGate,
        is_bidirectional: true,
        length: None,
        traversal_time: None,
        stair_count: None,
        max_slope: None,
        min_width: None,
        signposted_as: None,
        reversed_signposted_as: None,
    });
    let r = ds.check_pathways();
    match &r {
        Err(Error::DatasetValidationError(e)) => match &e.schema_instances[0] {
            Schema::Pathway(p) => assert_eq!(p.pathway_id.as_str(), "X"),
            other => panic!("unexpected record {:?}", other),
        },
        other => panic!("unexpected result {:?}", other),
    }
    expect(r, "inconsistent", "is_bidirectional");
    match ds.validate(false) {
        Err(Error::SchemaValidationError(e)) => assert!(matches!(
            e.kind,
            SchemaValidationErrorKind::InvalidValue { ref field_name, .. } if field_name == "is_bidirectional"
        )),
        other => panic!("unexpected result {:?}", other),
    }
}

#[test]
fn pathway_linking_a_station_to_itself() {
    let mut ds = small_feed();
    ds.stops.push(stop("ST", Some(LocationType::Station), None));
    ds.pathways.push(Pathway {
        pathway_id: PathwayId::new("loop"),
        from_stop_id: StopId::new("ST"),
        to_stop_id: StopId::new("ST"),
        pathway_mode: PathwayMode::Walkway,
        is_bidirectional: true,
        length: None,
        traversal_time: None,
        stair_count: None,
        max_slope: None,
        min_width: None,
        signposted_as: None,
        reversed_signposted_as: None,
    });
    expect(ds.validate(false), "inconsistent", "from_stop_id and to_stop_id");
}

#[test]
fn overlapping_timeframes() {
    let mut ds = small_feed();
    let frame = |start: &str, end: &str| Timeframe {
        timeframe_group_id: TimeframeGroupId::new("G"),
        start_time: Some(t(start)),
        end_time: Some(t(end)),
        service_id: CalendarServiceId::new("SV"),
    };
    ds.timeframes.push(frame("06:00:00", "09:00:00"));
    ds.timeframes.push(frame("08:30:00", "10:00:00"));
    let r = ds.validate(false);
    match &r {
        Err(Error::DatasetValidationError(e)) => assert_eq!(e.schema_instances.len(), 2),
        other => panic!("unexpected result {:?}", other),
    }
    expect_overlap(r);
    let mut ds = small_feed();
    ds.timeframes.push(frame("06:00:00", "09:00:00"));
    ds.timeframes.push(frame("09:00:00", "10:00:00"));
    assert!(ds.validate(false).is_ok());
}

fn expect_overlap(r: Result<(), Error>) {
    let (k, _) = dataset_fault(r);
    assert_eq!(k, "overlap");
}

#[test]
fn multilingual_feed_with_asymmetric_translations() {
    let mut ds = small_feed();
    ds.stops.push(stop("r1", None, None));
    ds.stops.push(stop("r2", None, None));
    ds.feed_info = Some(feed_info("mul"));
    ds.translations.push(translation("fr", TableName::Stops, "r1"));
    ds.translations.push(translation("fr", TableName::Stops, "r2"));
    ds.translations.push(translation("de", TableName::Stops, "r1"));
    expect(ds.validate(false), "inconsistent", "translations");
    ds.translations.push(translation("de", TableName::Stops, "r2"));
    assert!(ds.validate(false).is_ok());
}

#[test]
fn feed_language_against_translation_languages() {
    let mut ds = small_feed();
    ds.translations.push(translation("fr", TableName::Stops, "S"));
    expect(ds.validate(false), "missing", "feed_info.txt");
    ds.feed_info = Some(feed_info("en"));
    assert!(ds.validate(false).is_ok());
    ds.translations.push(translation("de", TableName::Stops, "S"));
    expect(ds.validate(false), "inconsistent", "feed_lang");
    ds.translations.push(translation("en", TableName::Stops, "S"));
    assert!(ds.validate(false).is_ok());
}

#[test]
fn translation_references_resolve() {
    let mut ds = small_feed();
    ds.feed_info = Some(feed_info("fr"));
    ds.translations.push(translation("fr", TableName::Stops, "ghost"));
    expect(ds.validate(false), "foreign_key", "record_id");

    let mut ds = small_feed();
    ds.feed_info = Some(feed_info("fr"));
    let mut tr = translation("fr", TableName::StopTimes, "T1");
    tr.record_sub_id = Some("2".to_string());
    ds.translations.push(tr);
    assert!(ds.validate(false).is_ok());
    ds.translations[0].record_sub_id = Some("9".to_string());
    expect(ds.validate(false), "foreign_key", "record_sub_id");
    ds.translations[0].record_sub_id = Some("two".to_string());
    expect(ds.validate(false), "foreign_key", "record_sub_id");

    let mut ds = small_feed();
    ds.feed_info = Some(feed_info("fr"));
    let mut tr = translation("fr", TableName::Routes, "R");
    tr.record_sub_id = Some("x".to_string());
    ds.translations.push(tr);
    expect(ds.validate(false), "inconsistent", "record_sub_id");
}

#[test]
fn stop_and_location_group_identifiers_are_disjoint() {
    let mut ds = small_feed();
    ds.location_groups.push(LocationGroup { location_group_id: LocationGroupId::new("S"), location_group_name: None });
    expect(ds.validate(false), "primary_key", "location_group_id");
    let mut ds = small_feed();
    ds.stops.push(stop("S", None, None));
    expect(ds.validate(false), "primary_key", "stop_id");
}

#[test]
fn shape_distances_must_increase_with_sequence() {
    let mut ds = small_feed();
    let point = |seq: u32, d: f64| Shape {
        shape_id: ShapeId::new("SH"),
        shape_pt: GtfsCoord { lat: m(0.0), lon: m(0.0) },
        shape_pt_sequence: seq,
        shape_dist_traveled: Some(m(d)),
    };
    ds.shapes.push(point(2, 10.0));
    ds.shapes.push(point(1, 0.0));
    ds.shapes.push(point(3, 12.5));
    assert!(ds.validate(false).is_ok());
    ds.shapes.push(point(4, 12.5));
    expect(ds.validate(false), "inconsistent", "shape_dist_traveled");
}

#[test]
fn row_stage_reports_the_first_bad_record() {
    let mut ds = small_feed();
    ds.routes.push(Route { route_short_name: None, ..route("R2") });
    ds.trips.push(trip("", "R", "SV"));
    match ds.validate(false) {
        Err(Error::SchemaValidationError(e)) => {
            assert!(matches!(e.schema_instance, Schema::Route(_)));
            assert!(matches!(
                e.kind,
                SchemaValidationErrorKind::MissingValue { ref field_name, .. }
                    if field_name == "route_short_name or route_long_name"
            ));
        },
        other => panic!("unexpected result {:?}", other),
    }
}

#[test]
fn queries_return_related_records() {
    let mut ds = small_feed();
    ds.trips.push(trip("T2", "R", "SV"));
    ds.trips.push(trip("T3", "Other", "SV"));
    ds.stop_times.push(stop_time("T2", 1, "10:00:00"));
    let trips = ds.trip_get_all_from_route(&RouteId::new("R"));
    assert_eq!(trips.iter().map(|t| t.trip_id.as_str()).collect::<Vec<_>>(), vec!["T1", "T2"]);
    let times = ds.stop_times_get_all_from_trip(&TripId::new("T1"));
    assert_eq!(times.iter().map(|s| s.stop_sequence).collect::<Vec<_>>(), vec![1, 2]);
    let by_route = ds.stop_times_get_all_from_route(&RouteId::new("R"));
    assert_eq!(by_route.len(), 3);
    assert_eq!(by_route[2].trip_id.as_str(), "T2");

    ds.stops.push(stop("ST", Some(LocationType::Station), None));
    ds.stops.push(stop("P", None, Some("ST")));
    let child = ds.stop_get_parent_station(&StopId::new("ST")).unwrap();
    assert_eq!(child.stop_id.as_str(), "P");
    assert!(ds.stop_get_parent_station(&StopId::new("P")).is_none());

    ds.location_groups.push(LocationGroup { location_group_id: LocationGroupId::new("G1"), location_group_name: None });
    ds.location_groups_stops.push(LocationGroupStop { location_group_id: LocationGroupId::new("G1"), stop_id: StopId::new("P") });
    let groups = ds.stop_get_all_location_groups(&StopId::new("P"));
    assert_eq!(groups.len(), 1);
    assert_eq!(groups[0].location_group_id.as_str(), "G1");
    assert!(ds.stop_get_all_location_groups(&StopId::new("S")).is_empty());
}

#[test]
fn strict_primary_keys() {
    let mut ds = small_feed();
    assert!(ds.check_primary_keys().is_ok());

    let mut ds = small_feed();
    ds.routes.push(route("R"));
    expect(ds.check_primary_keys(), "primary_key", "route_id");

    let mut ds = small_feed();
    let day = |d: u32| CalendarDate {
        service_id: CalendarServiceId::new("SV"),
        date: GtfsDate { year: 2024, month: 5, day: d },
        exception_type: ExceptionType::Removed,
    };
    ds.calendar_dates.push(day(1));
    ds.calendar_dates.push(day(2));
    assert!(ds.check_primary_keys().is_ok());
    ds.calendar_dates.push(day(1));
    expect(ds.check_primary_keys(), "primary_key", "(service_id, date)");

    let mut ds = small_feed();
    ds.stop_times.push(stop_time("T1", 2, "09:00:00"));
    expect(ds.check_primary_keys(), "primary_key", "(trip_id, stop_sequence)");
}

fn payload(r: &Result<(), Error>) -> (String, Vec<Schema>) {
    match r {
        Err(Error::DatasetValidationError(e)) => {
            let value = match &e.kind {
                DatasetValidationErrorKind::PrimaryKeyNotUnique { value, .. } => value.clone(),
                DatasetValidationErrorKind::ForeignKeyNotFound { value, .. } => value.clone(),
                DatasetValidationErrorKind::InconsistentValue { value, .. } => value.clone(),
                DatasetValidationErrorKind::OverlappingIntervals { details } => details.clone(),
                _ => String::new(),
            };
            (value, e.schema_instances.clone())
        },
        other => panic!("not a dataset error: {:?}", other),
    }
}

fn stop_ids(records: &[Schema]) -> Vec<String> {
    records
        .iter()
        .map(|s| match s {
            Schema::Stop(x) => x.stop_id.as_str().to_string(),
            other => panic!("unexpected record {:?}", other),
        })
        .collect()
}

#[test]
fn timezone_error_carries_the_value_and_the_agency() {
    let mut ds = Dataset::default();
    ds.agencies.push(agency("A", "America/Los_Angeles"));
    ds.agencies.push(agency("B", "America/New_York"));
    ds.calendar.push(calendar("SV"));
    let (value, records) = payload(&ds.validate(false));
    assert_eq!(value, "America/New_York");
    assert_eq!(records.len(), 1);
}

#[test]
fn hierarchy_error_carries_the_parent_chain() {
    let mut ds = small_feed();
    ds.stops.push(stop("platform1", Some(LocationType::StopOrPlatform), Some("platform2")));
    ds.stops.push(stop("platform2", Some(LocationType::StopOrPlatform), None));
    let (value, records) = payload(&ds.validate(false));
    assert_eq!(value, "platform2");
    assert_eq!(stop_ids(&records), vec!["platform1", "platform2"]);
}

#[test]
fn sequence_error_carries_the_late_stop_time() {
    let mut ds = small_feed();
    ds.stop_times.clear();
    ds.stop_times.push(stop_time("T1", 1, "08:00:00"));
    ds.stop_times.push(stop_time("T1", 3, "08:10:00"));
    ds.stop_times.push(stop_time("T1", 2, "08:20:00"));
    let (value, records) = payload(&ds.validate(false));
    assert_eq!(value, "2");
    match records.as_slice() {
        [Schema::StopTime(st)] => assert_eq!(st.stop_sequence, 2),
        other => panic!("unexpected records {:?}", other),
    }
}

#[test]
fn overlap_error_names_group_service_and_windows() {
    let mut ds = small_feed();
    let frame = |start: &str, end: &str| Timeframe {
        timeframe_group_id: TimeframeGroupId::new("G"),
        start_time: Some(t(start)),
        end_time: Some(t(end)),
        service_id: CalendarServiceId::new("SV"),
    };
    ds.timeframes.push(frame("06:00:00", "09:00:00"));
    ds.timeframes.push(frame("08:30:00", "10:00:00"));
    let (details, records) = payload(&ds.validate(false));
    assert_eq!(details, "timeframe_group_id G, service_id SV: 06:00:00-09:00:00 and 08:30:00-10:00:00");
    assert_eq!(records.len(), 2);
}

#[test]
fn multilingual_error_carries_the_feed_info() {
    let mut ds = small_feed();
    ds.stops.push(stop("r1", None, None));
    ds.stops.push(stop("r2", None, None));
    ds.feed_info = Some(feed_info("mul"));
    ds.translations.push(translation("fr", TableName::Stops, "r1"));
    ds.translations.push(translation("fr", TableName::Stops, "r2"));
    ds.translations.push(translation("de", TableName::Stops, "r1"));
    let (value, records) = payload(&ds.validate(false));
    assert_eq!(value, "fr and de");
    assert!(matches!(records.as_slice(), [Schema::FeedInfo(_)]));
}

#[test]
fn validation_rejects_repeated_keys() {
    let mut ds = small_feed();
    ds.routes.push(route("R"));
    let r = ds.validate(false);
    let (value, records) = payload(&r);
    assert_eq!(value, "R");
    assert!(matches!(records.as_slice(), [Schema::Route(_)]));
    expect(r, "primary_key", "route_id");
}

#[test]
fn validation_applies_stop_time_defaults() {
    let mut ds = small_feed();
    assert!(ds.validate(false).is_ok());
    for st in &ds.stop_times {
        assert_eq!(st.pickup_type, Some(gtfs_schedule::stop_time::PickupType::RegularlyScheduled));
        assert_eq!(st.drop_off_type, Some(gtfs_schedule::stop_time::DropOffType::RegularlyScheduled));
    }
    let mut bad = small_feed();
    bad.trips.push(trip("T2", "ghost", "SV"));
    assert!(bad.validate(false).is_err());
    assert!(bad.stop_times.iter().all(|st| st.pickup_type.is_none()));
}
