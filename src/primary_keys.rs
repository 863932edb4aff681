//! Primary keys of the mapping tables. The loader keeps every record it
//! reads; this check reports a key that two records share, for callers that
//! want duplicates rejected rather than the last one to count.
use vstd::prelude::*;

use crate::booking_rule::BookingRule;
use crate::calendar::{Calendar, CalendarDate};
use crate::fares::{FareAttribute, FareMedia, FareProduct};
use crate::route::Route;
use crate::shape::{Frequency, Shape};
use crate::station::{Area, Level, LocationGroup, Network, Pathway, RouteNetwork};
use crate::stop::Stop;
use crate::stop_time::StopTime;
use crate::trip::Trip;
use crate::dataset::Dataset;
use crate::error::{carries_payload, dataset_error, dataset_outcome, one, reports_dataset_fault, DatasetFault, Error};
use crate::ids::FareMediaId;
use crate::schemas::Schema;

verus! {

/// A record of a table with a primary key.
pub trait PrimaryKeyed {
    /// Both records have the same primary key.
    spec fn same_primary_key(&self, other: &Self) -> bool;

    /// Both records have the same primary key.
    fn primary_key_matches(&self, other: &Self) -> (r: bool)
        ensures
            r == self.same_primary_key(other);
}

/// No two records of `s` share a primary key.
pub open spec fn primary_keys_unique<T: PrimaryKeyed>(s: Seq<T>) -> bool {
    forall|i: int, j: int| 0 <= i < j < s.len() ==> !(#[trigger] s[i].same_primary_key(&s[j]))
}

/// The first position at or after `j` of a record whose primary key an
/// earlier record already has.
pub open spec fn duplicate_from<T: PrimaryKeyed>(s: Seq<T>, j: int) -> Option<int>
    decreases s.len() - j,
{
    if j < 0 || j >= s.len() {
        None
    } else if exists|i: int| 0 <= i < j && #[trigger] s[i].same_primary_key(&s[j]) {
        Some(j)
    } else {
        duplicate_from(s, j + 1)
    }
}

/// The position of the first record whose primary key an earlier record
/// already has.
pub fn first_duplicate<T: PrimaryKeyed>(v: &Vec<T>) -> (r: Option<usize>)
    ensures
        r is None <==> primary_keys_unique(v@),
        match r {
            Some(j) => duplicate_from(v@, 0) == Some(j as int),
            None => duplicate_from(v@, 0) is None,
        },
        r is Some ==> r.unwrap() < v@.len() && (exists|i: int|
            0 <= i < r.unwrap() && #[trigger] v@[i].same_primary_key(&v@[r.unwrap() as int]))
            && forall|a: int, b: int|
            0 <= a < b < r.unwrap() ==> !(#[trigger] v@[a].same_primary_key(&v@[b])),
{
    let n = v.len();
    let mut j: usize = 0;
    while j < n
        invariant
            n == v@.len(),
            0 <= j <= n,
            duplicate_from(v@, 0) == duplicate_from(v@, j as int),
            forall|a: int, b: int| 0 <= a < b < j ==> !(#[trigger] v@[a].same_primary_key(&v@[b])),
        decreases n - j,
    {
        let mut i: usize = 0;
        while i < j
            invariant
                n == v@.len(),
                0 <= i <= j < n,
                duplicate_from(v@, 0) == duplicate_from(v@, j as int),
                forall|x: int, y: int| 0 <= x < y < j ==> !(#[trigger] v@[x].same_primary_key(&v@[y])),
                forall|a: int| 0 <= a < i ==> !(#[trigger] v@[a].same_primary_key(&v@[j as int])),
            decreases j - i,
        {
            if v[i].primary_key_matches(&v[j]) {
                assert(v@[i as int].same_primary_key(&v@[j as int]));
                return Some(j);
            }
            i += 1;
        }
        j += 1;
    }
    None
}

/// Both optional identifiers are absent, or both present with the same text.
pub open spec fn same_optional_text(a: Option<FareMediaId>, b: Option<FareMediaId>) -> bool {
    match (a, b) {
        (Some(x), Some(y)) => x.0@ == y.0@,
        (None, None) => true,
        _ => false,
    }
}

fn optional_text_matches(a: &Option<FareMediaId>, b: &Option<FareMediaId>) -> (r: bool)
    ensures
        r == same_optional_text(*a, *b),
{
    match (a, b) {
        (Some(x), Some(y)) => x.0 == y.0,
        (None, None) => true,
        _ => false,
    }
}

impl PrimaryKeyed for Stop {
    open spec fn same_primary_key(&self, other: &Self) -> bool {
        self.stop_id.0@ == other.stop_id.0@
    }

    fn primary_key_matches(&self, other: &Self) -> (r: bool) {
        self.stop_id.0 == other.stop_id.0
    }
}

impl PrimaryKeyed for Route {
    open spec fn same_primary_key(&self, other: &Self) -> bool {
        self.route_id.0@ == other.route_id.0@
    }

    fn primary_key_matches(&self, other: &Self) -> (r: bool) {
        self.route_id.0 == other.route_id.0
    }
}

impl PrimaryKeyed for Trip {
    open spec fn same_primary_key(&self, other: &Self) -> bool {
        self.trip_id.0@ == other.trip_id.0@
    }

    fn primary_key_matches(&self, other: &Self) -> (r: bool) {
        self.trip_id.0 == other.trip_id.0
    }
}

impl PrimaryKeyed for StopTime {
    open spec fn same_primary_key(&self, other: &Self) -> bool {
        self.trip_id.0@ == other.trip_id.0@ && self.stop_sequence == other.stop_sequence
    }

    fn primary_key_matches(&self, other: &Self) -> (r: bool) {
        self.trip_id.0 == other.trip_id.0 && self.stop_sequence == other.stop_sequence
    }
}

impl PrimaryKeyed for Calendar {
    open spec fn same_primary_key(&self, other: &Self) -> bool {
        self.service_id.0@ == other.service_id.0@
    }

    fn primary_key_matches(&self, other: &Self) -> (r: bool) {
        self.service_id.0 == other.service_id.0
    }
}

impl PrimaryKeyed for CalendarDate {
    open spec fn same_primary_key(&self, other: &Self) -> bool {
        self.service_id.0@ == other.service_id.0@ && self.date == other.date
    }

    fn primary_key_matches(&self, other: &Self) -> (r: bool) {
        self.service_id.0 == other.service_id.0 && self.date == other.date
    }
}

impl PrimaryKeyed for FareAttribute {
    open spec fn same_primary_key(&self, other: &Self) -> bool {
        self.fare_id.0@ == other.fare_id.0@
    }

    fn primary_key_matches(&self, other: &Self) -> (r: bool) {
        self.fare_id.0 == other.fare_id.0
    }
}

impl PrimaryKeyed for FareMedia {
    open spec fn same_primary_key(&self, other: &Self) -> bool {
        self.fare_media_id.0@ == other.fare_media_id.0@
    }

    fn primary_key_matches(&self, other: &Self) -> (r: bool) {
        self.fare_media_id.0 == other.fare_media_id.0
    }
}

impl PrimaryKeyed for FareProduct {
    open spec fn same_primary_key(&self, other: &Self) -> bool {
        self.fare_product_id.0@ == other.fare_product_id.0@ && same_optional_text(self.fare_media_id, other.fare_media_id)
    }

    fn primary_key_matches(&self, other: &Self) -> (r: bool) {
        self.fare_product_id.0 == other.fare_product_id.0 && optional_text_matches(&self.fare_media_id, &other.fare_media_id)
    }
}

impl PrimaryKeyed for Area {
    open spec fn same_primary_key(&self, other: &Self) -> bool {
        self.area_id.0@ == other.area_id.0@
    }

    fn primary_key_matches(&self, other: &Self) -> (r: bool) {
        self.area_id.0 == other.area_id.0
    }
}

impl PrimaryKeyed for Network {
    open spec fn same_primary_key(&self, other: &Self) -> bool {
        self.network_id.0@ == other.network_id.0@
    }

    fn primary_key_matches(&self, other: &Self) -> (r: bool) {
        self.network_id.0 == other.network_id.0
    }
}

impl PrimaryKeyed for RouteNetwork {
    open spec fn same_primary_key(&self, other: &Self) -> bool {
        self.route_id.0@ == other.route_id.0@
    }

    fn primary_key_matches(&self, other: &Self) -> (r: bool) {
        self.route_id.0 == other.route_id.0
    }
}

impl PrimaryKeyed for Shape {
    open spec fn same_primary_key(&self, other: &Self) -> bool {
        self.shape_id.0@ == other.shape_id.0@ && self.shape_pt_sequence == other.shape_pt_sequence
    }

    fn primary_key_matches(&self, other: &Self) -> (r: bool) {
        self.shape_id.0 == other.shape_id.0 && self.shape_pt_sequence == other.shape_pt_sequence
    }
}

impl PrimaryKeyed for Frequency {
    open spec fn same_primary_key(&self, other: &Self) -> bool {
        self.trip_id.0@ == other.trip_id.0@ && self.start_time.secs == other.start_time.secs
    }

    fn primary_key_matches(&self, other: &Self) -> (r: bool) {
        self.trip_id.0 == other.trip_id.0 && self.start_time.secs == other.start_time.secs
    }
}

impl PrimaryKeyed for Pathway {
    open spec fn same_primary_key(&self, other: &Self) -> bool {
        self.pathway_id.0@ == other.pathway_id.0@
    }

    fn primary_key_matches(&self, other: &Self) -> (r: bool) {
        self.pathway_id.0 == other.pathway_id.0
    }
}

impl PrimaryKeyed for Level {
    open spec fn same_primary_key(&self, other: &Self) -> bool {
        self.level_id.0@ == other.level_id.0@
    }

    fn primary_key_matches(&self, other: &Self) -> (r: bool) {
        self.level_id.0 == other.level_id.0
    }
}

impl PrimaryKeyed for LocationGroup {
    open spec fn same_primary_key(&self, other: &Self) -> bool {
        self.location_group_id.0@ == other.location_group_id.0@
    }

    fn primary_key_matches(&self, other: &Self) -> (r: bool) {
        self.location_group_id.0 == other.location_group_id.0
    }
}

impl PrimaryKeyed for BookingRule {
    open spec fn same_primary_key(&self, other: &Self) -> bool {
        self.booking_rule_id.0@ == other.booking_rule_id.0@
    }

    fn primary_key_matches(&self, other: &Self) -> (r: bool) {
        self.booking_rule_id.0 == other.booking_rule_id.0
    }
}

impl Dataset {
    /// No two records of a mapping table share a primary key.
    pub open spec fn primary_keys_ok(&self) -> bool {
        &&& primary_keys_unique(self.stops@)
        &&& primary_keys_unique(self.routes@)
        &&& primary_keys_unique(self.trips@)
        &&& primary_keys_unique(self.stop_times@)
        &&& primary_keys_unique(self.calendar@)
        &&& primary_keys_unique(self.calendar_dates@)
        &&& primary_keys_unique(self.fare_attributes@)
        &&& primary_keys_unique(self.fare_medias@)
        &&& primary_keys_unique(self.fare_products@)
        &&& primary_keys_unique(self.areas@)
        &&& primary_keys_unique(self.networks@)
        &&& primary_keys_unique(self.routes_networks@)
        &&& primary_keys_unique(self.shapes@)
        &&& primary_keys_unique(self.frequencies@)
        &&& primary_keys_unique(self.pathways@)
        &&& primary_keys_unique(self.levels@)
        &&& primary_keys_unique(self.location_groups@)
        &&& primary_keys_unique(self.booking_rules@)
    }

    /// The fault of the key check: the first table, in the order checked,
    /// with a repeated key, named by its key fields.
    pub open spec fn primary_keys_fault(&self) -> Option<(DatasetFault, Seq<char>)> {
        if !primary_keys_unique(self.stops@) {
            Some((DatasetFault::PrimaryKeyNotUnique, "stop_id"@))
        } else if !primary_keys_unique(self.routes@) {
            Some((DatasetFault::PrimaryKeyNotUnique, "route_id"@))
        } else if !primary_keys_unique(self.trips@) {
            Some((DatasetFault::PrimaryKeyNotUnique, "trip_id"@))
        } else if !primary_keys_unique(self.stop_times@) {
            Some((DatasetFault::PrimaryKeyNotUnique, "(trip_id, stop_sequence)"@))
        } else if !primary_keys_unique(self.calendar@) {
            Some((DatasetFault::PrimaryKeyNotUnique, "service_id"@))
        } else if !primary_keys_unique(self.calendar_dates@) {
            Some((DatasetFault::PrimaryKeyNotUnique, "(service_id, date)"@))
        } else if !primary_keys_unique(self.fare_attributes@) {
            Some((DatasetFault::PrimaryKeyNotUnique, "fare_id"@))
        } else if !primary_keys_unique(self.fare_medias@) {
            Some((DatasetFault::PrimaryKeyNotUnique, "fare_media_id"@))
        } else if !primary_keys_unique(self.fare_products@) {
            Some((DatasetFault::PrimaryKeyNotUnique, "(fare_product_id, fare_media_id)"@))
        } else if !primary_keys_unique(self.areas@) {
            Some((DatasetFault::PrimaryKeyNotUnique, "area_id"@))
        } else if !primary_keys_unique(self.networks@) {
            Some((DatasetFault::PrimaryKeyNotUnique, "network_id"@))
        } else if !primary_keys_unique(self.routes_networks@) {
            Some((DatasetFault::PrimaryKeyNotUnique, "route_id"@))
        } else if !primary_keys_unique(self.shapes@) {
            Some((DatasetFault::PrimaryKeyNotUnique, "(shape_id, shape_pt_sequence)"@))
        } else if !primary_keys_unique(self.frequencies@) {
            Some((DatasetFault::PrimaryKeyNotUnique, "(trip_id, start_time)"@))
        } else if !primary_keys_unique(self.pathways@) {
            Some((DatasetFault::PrimaryKeyNotUnique, "pathway_id"@))
        } else if !primary_keys_unique(self.levels@) {
            Some((DatasetFault::PrimaryKeyNotUnique, "level_id"@))
        } else if !primary_keys_unique(self.location_groups@) {
            Some((DatasetFault::PrimaryKeyNotUnique, "location_group_id"@))
        } else if !primary_keys_unique(self.booking_rules@) {
            Some((DatasetFault::PrimaryKeyNotUnique, "booking_rule_id"@))
        } else {
            None
        }
    }

    /// The key text and record of the first repeated key, tables taken in
    /// the order checked.
    pub open spec fn primary_keys_payload(&self) -> Option<(Seq<char>, Seq<Schema>)> {
        if !primary_keys_unique(self.stops@) {
            Some((
                self.stops@[duplicate_from(self.stops@, 0).unwrap()].stop_id.0@,
                seq![Schema::Stop(self.stops@[duplicate_from(self.stops@, 0).unwrap()])],
            ))
        } else if !primary_keys_unique(self.routes@) {
            Some((
                self.routes@[duplicate_from(self.routes@, 0).unwrap()].route_id.0@,
                seq![Schema::Route(self.routes@[duplicate_from(self.routes@, 0).unwrap()])],
            ))
        } else if !primary_keys_unique(self.trips@) {
            Some((
                self.trips@[duplicate_from(self.trips@, 0).unwrap()].trip_id.0@,
                seq![Schema::Trip(self.trips@[duplicate_from(self.trips@, 0).unwrap()])],
            ))
        } else if !primary_keys_unique(self.stop_times@) {
            Some((
                self.stop_times@[duplicate_from(self.stop_times@, 0).unwrap()].trip_id.0@,
                seq![Schema::StopTime(self.stop_times@[duplicate_from(self.stop_times@, 0).unwrap()])],
            ))
        } else if !primary_keys_unique(self.calendar@) {
            Some((
                self.calendar@[duplicate_from(self.calendar@, 0).unwrap()].service_id.0@,
                seq![Schema::Calendar(self.calendar@[duplicate_from(self.calendar@, 0).unwrap()])],
            ))
        } else if !primary_keys_unique(self.calendar_dates@) {
            Some((
                self.calendar_dates@[duplicate_from(self.calendar_dates@, 0).unwrap()].service_id.0@,
                seq![Schema::CalendarDate(self.calendar_dates@[duplicate_from(self.calendar_dates@, 0).unwrap()])],
            ))
        } else if !primary_keys_unique(self.fare_attributes@) {
            Some((
                self.fare_attributes@[duplicate_from(self.fare_attributes@, 0).unwrap()].fare_id.0@,
                seq![Schema::FareAttribute(self.fare_attributes@[duplicate_from(self.fare_attributes@, 0).unwrap()])],
            ))
        } else if !primary_keys_unique(self.fare_medias@) {
            Some((
                self.fare_medias@[duplicate_from(self.fare_medias@, 0).unwrap()].fare_media_id.0@,
                seq![Schema::FareMedia(self.fare_medias@[duplicate_from(self.fare_medias@, 0).unwrap()])],
            ))
        } else if !primary_keys_unique(self.fare_products@) {
            Some((
                self.fare_products@[duplicate_from(self.fare_products@, 0).unwrap()].fare_product_id.0@,
                seq![Schema::FareProduct(self.fare_products@[duplicate_from(self.fare_products@, 0).unwrap()])],
            ))
        } else if !primary_keys_unique(self.areas@) {
            Some((
                self.areas@[duplicate_from(self.areas@, 0).unwrap()].area_id.0@,
                seq![Schema::Area(self.areas@[duplicate_from(self.areas@, 0).unwrap()])],
            ))
        } else if !primary_keys_unique(self.networks@) {
            Some((
                self.networks@[duplicate_from(self.networks@, 0).unwrap()].network_id.0@,
                seq![Schema::Network(self.networks@[duplicate_from(self.networks@, 0).unwrap()])],
            ))
        } else if !primary_keys_unique(self.routes_networks@) {
            Some((
                self.routes_networks@[duplicate_from(self.routes_networks@, 0).unwrap()].route_id.0@,
                seq![Schema::RouteNetwork(self.routes_networks@[duplicate_from(self.routes_networks@, 0).unwrap()])],
            ))
        } else if !primary_keys_unique(self.shapes@) {
            Some((
                self.shapes@[duplicate_from(self.shapes@, 0).unwrap()].shape_id.0@,
                seq![Schema::Shape(self.shapes@[duplicate_from(self.shapes@, 0).unwrap()])],
            ))
        } else if !primary_keys_unique(self.frequencies@) {
            Some((
                self.frequencies@[duplicate_from(self.frequencies@, 0).unwrap()].trip_id.0@,
                seq![Schema::Frequency(self.frequencies@[duplicate_from(self.frequencies@, 0).unwrap()])],
            ))
        } else if !primary_keys_unique(self.pathways@) {
            Some((
                self.pathways@[duplicate_from(self.pathways@, 0).unwrap()].pathway_id.0@,
                seq![Schema::Pathway(self.pathways@[duplicate_from(self.pathways@, 0).unwrap()])],
            ))
        } else if !primary_keys_unique(self.levels@) {
            Some((
                self.levels@[duplicate_from(self.levels@, 0).unwrap()].level_id.0@,
                seq![Schema::Level(self.levels@[duplicate_from(self.levels@, 0).unwrap()])],
            ))
        } else if !primary_keys_unique(self.location_groups@) {
            Some((
                self.location_groups@[duplicate_from(self.location_groups@, 0).unwrap()].location_group_id.0@,
                seq![Schema::LocationGroup(self.location_groups@[duplicate_from(self.location_groups@, 0).unwrap()])],
            ))
        } else if !primary_keys_unique(self.booking_rules@) {
            Some((
                self.booking_rules@[duplicate_from(self.booking_rules@, 0).unwrap()].booking_rule_id.0@,
                seq![Schema::BookingRule(self.booking_rules@[duplicate_from(self.booking_rules@, 0).unwrap()])],
            ))
        } else {
            None
        }
    }

    /// Checks that no two records of a mapping table share a primary key,
    /// and reports the first repeated key, tables taken in a fixed order.
    pub fn check_primary_keys(&self) -> (r: Result<(), Error>)
        ensures
            dataset_outcome(r, self.primary_keys_ok()),
            reports_dataset_fault(r, self.primary_keys_fault()),
            carries_payload(r, self.primary_keys_payload()),
    {
        if let Some(j) = first_duplicate(&self.stops) {
            return Err(
                dataset_error(
                    DatasetFault::PrimaryKeyNotUnique,
                    "stop_id",
                    self.stops[j].stop_id.0.clone(),
                    "stop_id",
                    one(Schema::Stop(self.stops[j].copy())),
                ),
            );
        }
        if let Some(j) = first_duplicate(&self.routes) {
            return Err(
                dataset_error(
                    DatasetFault::PrimaryKeyNotUnique,
                    "route_id",
                    self.routes[j].route_id.0.clone(),
                    "route_id",
                    one(Schema::Route(self.routes[j].copy())),
                ),
            );
        }
        if let Some(j) = first_duplicate(&self.trips) {
            return Err(
                dataset_error(
                    DatasetFault::PrimaryKeyNotUnique,
                    "trip_id",
                    self.trips[j].trip_id.0.clone(),
                    "trip_id",
                    one(Schema::Trip(self.trips[j].copy())),
                ),
            );
        }
        if let Some(j) = first_duplicate(&self.stop_times) {
            return Err(
                dataset_error(
                    DatasetFault::PrimaryKeyNotUnique,
                    "(trip_id, stop_sequence)",
                    self.stop_times[j].trip_id.0.clone(),
                    "(trip_id, stop_sequence)",
                    one(Schema::StopTime(self.stop_times[j].copy())),
                ),
            );
        }
        if let Some(j) = first_duplicate(&self.calendar) {
            return Err(
                dataset_error(
                    DatasetFault::PrimaryKeyNotUnique,
                    "service_id",
                    self.calendar[j].service_id.0.clone(),
                    "service_id",
                    one(Schema::Calendar(self.calendar[j].copy())),
                ),
            );
        }
        if let Some(j) = first_duplicate(&self.calendar_dates) {
            return Err(
                dataset_error(
                    DatasetFault::PrimaryKeyNotUnique,
                    "(service_id, date)",
                    self.calendar_dates[j].service_id.0.clone(),
                    "(service_id, date)",
                    one(Schema::CalendarDate(self.calendar_dates[j].copy())),
                ),
            );
        }
        if let Some(j) = first_duplicate(&self.fare_attributes) {
            return Err(
                dataset_error(
                    DatasetFault::PrimaryKeyNotUnique,
                    "fare_id",
                    self.fare_attributes[j].fare_id.0.clone(),
                    "fare_id",
                    one(Schema::FareAttribute(self.fare_attributes[j].copy())),
                ),
            );
        }
        if let Some(j) = first_duplicate(&self.fare_medias) {
            return Err(
                dataset_error(
                    DatasetFault::PrimaryKeyNotUnique,
                    "fare_media_id",
                    self.fare_medias[j].fare_media_id.0.clone(),
                    "fare_media_id",
                    one(Schema::FareMedia(self.fare_medias[j].copy())),
                ),
            );
        }
        if let Some(j) = first_duplicate(&self.fare_products) {
            return Err(
                dataset_error(
                    DatasetFault::PrimaryKeyNotUnique,
                    "(fare_product_id, fare_media_id)",
                    self.fare_products[j].fare_product_id.0.clone(),
                    "(fare_product_id, fare_media_id)",
                    one(Schema::FareProduct(self.fare_products[j].copy())),
                ),
            );
        }
        if let Some(j) = first_duplicate(&self.areas) {
            return Err(
                dataset_error(
                    DatasetFault::PrimaryKeyNotUnique,
                    "area_id",
                    self.areas[j].area_id.0.clone(),
                    "area_id",
                    one(Schema::Area(self.areas[j].copy())),
                ),
            );
        }
        if let Some(j) = first_duplicate(&self.networks) {
            return Err(
                dataset_error(
                    DatasetFault::PrimaryKeyNotUnique,
                    "network_id",
                    self.networks[j].network_id.0.clone(),
                    "network_id",
                    one(Schema::Network(self.networks[j].copy())),
                ),
            );
        }
        if let Some(j) = first_duplicate(&self.routes_networks) {
            return Err(
                dataset_error(
                    DatasetFault::PrimaryKeyNotUnique,
                    "route_id",
                    self.routes_networks[j].route_id.0.clone(),
                    "route_id",
                    one(Schema::RouteNetwork(self.routes_networks[j].copy())),
                ),
            );
        }
        if let Some(j) = first_duplicate(&self.shapes) {
            return Err(
                dataset_error(
                    DatasetFault::PrimaryKeyNotUnique,
                    "(shape_id, shape_pt_sequence)",
                    self.shapes[j].shape_id.0.clone(),
                    "(shape_id, shape_pt_sequence)",
                    one(Schema::Shape(self.shapes[j].copy())),
                ),
            );
        }
        if let Some(j) = first_duplicate(&self.frequencies) {
            return Err(
                dataset_error(
                    DatasetFault::PrimaryKeyNotUnique,
                    "(trip_id, start_time)",
                    self.frequencies[j].trip_id.0.clone(),
                    "(trip_id, start_time)",
                    one(Schema::Frequency(self.frequencies[j].copy())),
                ),
            );
        }
        if let Some(j) = first_duplicate(&self.pathways) {
            return Err(
                dataset_error(
                    DatasetFault::PrimaryKeyNotUnique,
                    "pathway_id",
                    self.pathways[j].pathway_id.0.clone(),
                    "pathway_id",
                    one(Schema::Pathway(self.pathways[j].copy())),
                ),
            );
        }
        if let Some(j) = first_duplicate(&self.levels) {
            return Err(
                dataset_error(
                    DatasetFault::PrimaryKeyNotUnique,
                    "level_id",
                    self.levels[j].level_id.0.clone(),
                    "level_id",
                    one(Schema::Level(self.levels[j].copy())),
                ),
            );
        }
        if let Some(j) = first_duplicate(&self.location_groups) {
            return Err(
                dataset_error(
                    DatasetFault::PrimaryKeyNotUnique,
                    "location_group_id",
                    self.location_groups[j].location_group_id.0.clone(),
                    "location_group_id",
                    one(Schema::LocationGroup(self.location_groups[j].copy())),
                ),
            );
        }
        if let Some(j) = first_duplicate(&self.booking_rules) {
            return Err(
                dataset_error(
                    DatasetFault::PrimaryKeyNotUnique,
                    "booking_rule_id",
                    self.booking_rules[j].booking_rule_id.0.clone(),
                    "booking_rule_id",
                    one(Schema::BookingRule(self.booking_rules[j].copy())),
                ),
            );
        }
        Ok(())
    }
}

} // verus!
