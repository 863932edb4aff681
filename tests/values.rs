use gtfs_schedule::error::{ErrorContext, ParseError, ParseErrorKind};
use gtfs_schedule::ids::{RouteId, StopId};
use gtfs_schedule::route::RouteType;
use gtfs_schedule::schemas::LocationType;
use gtfs_schedule::shape::ExactTimes;
use gtfs_schedule::station::PathwayMode;
use gtfs_schedule::stop_time::Timepoint;
use gtfs_schedule::transfer::TransferType;
use gtfs_schedule::trip::{BikesAllowed, WheelchairAccessible};
use gtfs_schedule::values::{parse_decimal_u32, GtfsDate, Measure, NaiveServiceTime};

#[test]
fn service_time_parses_hours_past_midnight() {
    let t = NaiveServiceTime::parse("25:35:00").unwrap();
    assert_eq!(t.secs, 25 * 3600 + 35 * 60);
    assert!(t.overflow());
    assert_eq!(t.to_text(), "25:35:00");
}

#[test]
fn service_time_parses_single_digit_hour() {
    let t = NaiveServiceTime::parse("8:05:09").unwrap();
    assert_eq!(t.secs, 8 * 3600 + 5 * 60 + 9);
    assert!(!t.overflow());
    assert_eq!(t.to_text(), "08:05:09");
}

#[test]
fn service_time_rejects_out_of_range_and_garbage() {
    assert!(NaiveServiceTime::parse("48:00:00").is_none());
    assert!(NaiveServiceTime::parse("12:60:00").is_none());
    assert!(NaiveServiceTime::parse("12:00:60").is_none());
    assert!(NaiveServiceTime::parse("ab:cd:ef").is_none());
    assert!(NaiveServiceTime::parse("").is_none());
    assert!(NaiveServiceTime::parse("12:00").is_none());
}

#[test]
fn service_time_round_trips_through_text() {
    for text in ["00:00:00", "07:30:15", "23:59:59", "24:00:00", "47:59:59"] {
        let t = NaiveServiceTime::parse(text).unwrap();
        assert_eq!(t.to_text(), text);
        assert_eq!(NaiveServiceTime::parse(&t.to_text()).unwrap(), t);
    }
}

#[test]
fn service_time_orders_across_midnight() {
    let before = NaiveServiceTime::parse("23:59:59").unwrap();
    let after = NaiveServiceTime::parse("24:00:00").unwrap();
    assert!(before.lt(&after));
    assert!(!after.lt(&before));
    assert!(!before.overflow());
    assert!(after.overflow());
}

#[test]
fn service_time_from_hms_bounds() {
    assert_eq!(NaiveServiceTime::from_hms(47, 59, 59).unwrap().secs, 172799);
    assert!(NaiveServiceTime::from_hms(48, 0, 0).is_none());
    assert!(NaiveServiceTime::from_hms(1, 60, 0).is_none());
}

#[test]
fn service_time_addition_saturates() {
    let t = NaiveServiceTime::parse("08:00:00").unwrap();
    assert_eq!(t.add_secs(300).to_text(), "08:05:00");
    let late = NaiveServiceTime::parse("47:00:00").unwrap();
    assert_eq!(late.add_secs(7200).to_text(), "47:59:59");
    assert_eq!(late.add_secs(u64::MAX).to_text(), "47:59:59");
}

#[test]
fn measures_order_like_doubles() {
    let values = [-1.0e9f64, -2.5, -0.0, 0.0, 1.0e-9, 3.25, 1.0e12];
    for (i, a) in values.iter().enumerate() {
        for (j, b) in values.iter().enumerate() {
            let ma = Measure::from_bits(a.to_bits());
            let mb = Measure::from_bits(b.to_bits());
            assert_eq!(ma.lt(&mb), a < b, "{} {} ({} {})", a, b, i, j);
        }
    }
    assert!(Measure::from_bits((-0.5f64).to_bits()).is_negative());
    assert!(!Measure::from_bits((-0.0f64).to_bits()).is_negative());
    assert!(!Measure::from_bits(0.0f64.to_bits()).is_negative());
}

#[test]
fn dates_parse_and_order() {
    let d = GtfsDate::parse("20240131").unwrap();
    assert_eq!(d, GtfsDate { year: 2024, month: 1, day: 31 });
    let e = GtfsDate::parse("20240201").unwrap();
    assert!(d.le(&e));
    assert!(!e.le(&d));
    assert!(d.le(&d));
    assert!(GtfsDate::parse("2024-01-31").is_none());
}

#[test]
fn decimal_numbers_parse() {
    assert_eq!(parse_decimal_u32("42"), Some(42));
    assert_eq!(parse_decimal_u32("007"), Some(7));
    assert_eq!(parse_decimal_u32("4294967295"), Some(u32::MAX));
    assert_eq!(parse_decimal_u32("4294967296"), None);
    assert_eq!(parse_decimal_u32("99999999999999999999"), None);
    assert_eq!(parse_decimal_u32(""), None);
    assert_eq!(parse_decimal_u32("4a"), None);
    assert_eq!(parse_decimal_u32("-1"), None);
}

#[test]
fn codes_map_to_enumerations() {
    assert_eq!(TransferType::from_code(None), Some(TransferType::RecommendedTransferPoint));
    assert_eq!(TransferType::from_code(Some(4)), Some(TransferType::InSeatTransfer));
    assert_eq!(TransferType::from_code(Some(6)), None);
    assert_eq!(Timepoint::from_code(None), Some(Timepoint::Exact));
    assert_eq!(Timepoint::from_code(Some(0)), Some(Timepoint::Approximate));
    assert_eq!(Timepoint::from_code(Some(2)), None);
    assert_eq!(ExactTimes::from_code(None), Some(ExactTimes::Approximate));
    assert_eq!(ExactTimes::from_code(Some(1)), Some(ExactTimes::Exact));
    assert_eq!(ExactTimes::from_code(Some(2)), None);
    assert_eq!(WheelchairAccessible::from_code(None), Some(WheelchairAccessible::NoInformation));
    assert_eq!(WheelchairAccessible::from_code(Some(3)), None);
    assert_eq!(BikesAllowed::from_code(Some(2)), Some(BikesAllowed::NoBikesAllowed));
    assert_eq!(LocationType::from_code(1), Some(LocationType::Station));
    assert_eq!(LocationType::from_code(5), None);
    assert_eq!(PathwayMode::from_code(7), Some(PathwayMode::ExitGate));
    assert_eq!(PathwayMode::from_code(0), None);
    assert_eq!(RouteType::from_code(11), Some(RouteType::Trolleybus));
    assert_eq!(RouteType::from_code(8), None);
}

#[test]
fn identifiers_compare_by_text() {
    let a = StopId::new("S1");
    assert!(a.same(&StopId::new("S1")));
    assert!(!a.same(&StopId::new("S2")));
    assert_eq!(a.as_str(), "S1");
    assert!(!a.is_empty());
    assert!(StopId::new("").is_empty());
    assert_eq!(RouteId::new("R").duplicate(), RouteId::new("R"));
}

#[test]
fn parse_errors_collect_context() {
    let e = ParseError::from_kind(ParseErrorKind::InvalidValue("x".to_string()))
        .with_context(ErrorContext("record 3".to_string()))
        .with_context(ErrorContext("stops.txt".to_string()));
    assert_eq!(e.context.len(), 2);
    assert_eq!(e.context[1].0, "stops.txt");
    assert!(matches!(e.kind, ParseErrorKind::InvalidValue(_)));
}

#[test]
fn impossible_dates_are_rejected() {
    assert!(GtfsDate::parse("20231399").is_none());
    assert!(GtfsDate::parse("20230230").is_none());
    assert_eq!(GtfsDate::parse("20240229"), Some(GtfsDate { year: 2024, month: 2, day: 29 }));
}
