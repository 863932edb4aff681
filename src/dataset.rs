//! The dataset: every table of a feed, held as a sequence of records in the
//! order in which they were read. Mapping tables keep every record, so that
//! a duplicate primary key stays visible to the checks that forbid one.
use vstd::prelude::*;

use crate::error::{carries_record, reports_schema_fault, Error, SchemaFault};
use crate::schemas::Schema;
use crate::agency::Agency;
use crate::booking_rule::BookingRule;
use crate::calendar::{Calendar, CalendarDate};
use crate::fares::{FareAttribute, FareLegRule, FareMedia, FareProduct, FareRule, FareTransferRule, Timeframe};
use crate::feed_info::{Attribution, FeedInfo};
use crate::route::Route;
use crate::shape::{Frequency, Shape};
use crate::station::{Area, Level, LocationGroup, LocationGroupStop, Network, Pathway, RouteNetwork, StopArea};
use crate::stop::Stop;
use crate::stop_time::StopTime;
use crate::transfer::Transfer;
use crate::translation::Translation;
use crate::trip::Trip;

verus! {

/// A record that carries an identifier of the entity family that other
/// tables refer to.
pub trait Keyed {
    /// The text of the identifier, if the record has one.
    spec fn key(&self) -> Option<Seq<char>>;

    /// The text of the identifier, if the record has one.
    fn key_text(&self) -> (r: Option<&String>)
        ensures
            match r {
                Some(s) => self.key() == Some(s@),
                None => self.key() is None,
            };
}

/// Some record of `s` has the identifier `k`.
pub open spec fn has_key<T: Keyed>(s: Seq<T>, k: Seq<char>) -> bool {
    exists|i: int| 0 <= i < s.len() && #[trigger] s[i].key() == Some(k)
}

/// The first position at or after `i` of a record of `s` with identifier `k`.
pub open spec fn key_position_from<T: Keyed>(s: Seq<T>, k: Seq<char>, i: int) -> Option<int>
    decreases s.len() - i,
{
    if i < 0 || i >= s.len() {
        None
    } else if s[i].key() == Some(k) {
        Some(i)
    } else {
        key_position_from(s, k, i + 1)
    }
}

/// The first position of a record of `s` with identifier `k`.
pub open spec fn key_position<T: Keyed>(s: Seq<T>, k: Seq<char>) -> Option<int> {
    key_position_from(s, k, 0)
}

proof fn lemma_key_position_from<T: Keyed>(s: Seq<T>, k: Seq<char>, i: int)
    requires
        0 <= i <= s.len(),
    ensures
        match key_position_from(s, k, i) {
            Some(p) => i <= p < s.len() && s[p].key() == Some(k) && forall|j: int|
                i <= j < p ==> s[j].key() != Some(k),
            None => forall|j: int| i <= j < s.len() ==> s[j].key() != Some(k),
        },
    decreases s.len() - i,
{
    if i < s.len() {
        lemma_key_position_from(s, k, i + 1);
    }
}

/// The first position of a record with identifier `k` is that of some
/// record with it, and there is one exactly when some record has it.
pub proof fn lemma_key_position<T: Keyed>(s: Seq<T>, k: Seq<char>)
    ensures
        key_position(s, k) is Some <==> has_key(s, k),
        key_position(s, k) is Some ==> 0 <= key_position(s, k).unwrap() < s.len() && s[key_position(
            s,
            k,
        ).unwrap()].key() == Some(k),
{
    lemma_key_position_from(s, k, 0);
    if has_key(s, k) {
        let i = choose|i: int| 0 <= i < s.len() && #[trigger] s[i].key() == Some(k);
        assert(s[i].key() == Some(k));
    }
}

/// The first position of a record of `v` with identifier `k`.
pub fn find_key<T: Keyed>(v: &Vec<T>, k: &String) -> (r: Option<usize>)
    ensures
        match r {
            Some(i) => key_position(v@, k@) == Some(i as int),
            None => key_position(v@, k@) is None,
        },
        r is Some <==> has_key(v@, k@),
{
    proof {
        lemma_key_position(v@, k@);
    }
    let mut i: usize = 0;
    while i < v.len()
        invariant
            0 <= i <= v@.len(),
            key_position(v@, k@) == key_position_from(v@, k@, i as int),
        decreases v@.len() - i,
    {
        match v[i].key_text() {
            Some(t) => {
                if *t == *k {
                    return Some(i);
                }
            },
            None => {},
        }
        i += 1;
    }
    None
}

/// Some record of `v` has the identifier `k`.
pub fn contains_key<T: Keyed>(v: &Vec<T>, k: &String) -> (r: bool)
    ensures
        r == has_key(v@, k@),
{
    find_key(v, k).is_some()
}

/// A record with rules of its own row.
pub trait Row {
    /// The first rule of the row that the record breaks.
    spec fn fault(&self) -> Option<(SchemaFault, Seq<char>)>;

    /// The record as a member of the union of all records.
    spec fn as_schema(&self) -> Schema;

    /// Checks the rules of the row.
    fn check_row(&self) -> (r: Result<(), Error>)
        ensures
            reports_schema_fault(r, self.fault()),
            carries_record(r, self.as_schema());
}

/// The fault of the first record at or after `i` that breaks a rule of its row.
pub open spec fn first_fault_from<T: Row>(s: Seq<T>, i: int) -> Option<(SchemaFault, Seq<char>)>
    decreases s.len() - i,
{
    if i < 0 || i >= s.len() {
        None
    } else if s[i].fault() is Some {
        s[i].fault()
    } else {
        first_fault_from(s, i + 1)
    }
}

/// The first record at or after `i` that breaks a rule of its row.
pub open spec fn first_faulty_from<T: Row>(s: Seq<T>, i: int) -> Option<Schema>
    decreases s.len() - i,
{
    if i < 0 || i >= s.len() {
        None
    } else if s[i].fault() is Some {
        Some(s[i].as_schema())
    } else {
        first_faulty_from(s, i + 1)
    }
}

/// The fault of the first record of `s` that breaks a rule of its row.
pub open spec fn first_fault<T: Row>(s: Seq<T>) -> Option<(SchemaFault, Seq<char>)> {
    first_fault_from(s, 0)
}

/// Checks each record in order and reports the first fault.
pub fn check_rows<T: Row>(v: &Vec<T>) -> (r: Result<(), Error>)
    ensures
        reports_schema_fault(r, first_fault(v@)),
        r is Err ==> carries_record(r, first_faulty_from(v@, 0).unwrap()),
{
    let mut i: usize = 0;
    while i < v.len()
        invariant
            0 <= i <= v@.len(),
            first_fault(v@) == first_fault_from(v@, i as int),
            first_faulty_from(v@, 0) == first_faulty_from(v@, i as int),
        decreases v@.len() - i,
    {
        let r = v[i].check_row();
        if r.is_err() {
            return r;
        }
        i += 1;
    }
    Ok(())
}

impl Keyed for Agency {
    open spec fn key(&self) -> Option<Seq<char>> {
        match self.agency_id {
            Some(id) => Some(id.0@),
            None => None,
        }
    }

    fn key_text(&self) -> (r: Option<&String>) {
        match &self.agency_id {
            Some(id) => Some(&id.0),
            None => None,
        }
    }
}

impl Keyed for Stop {
    open spec fn key(&self) -> Option<Seq<char>> {
        Some(self.stop_id.0@)
    }

    fn key_text(&self) -> (r: Option<&String>) {
        Some(&self.stop_id.0)
    }
}

impl Keyed for Route {
    open spec fn key(&self) -> Option<Seq<char>> {
        Some(self.route_id.0@)
    }

    fn key_text(&self) -> (r: Option<&String>) {
        Some(&self.route_id.0)
    }
}

impl Keyed for Trip {
    open spec fn key(&self) -> Option<Seq<char>> {
        Some(self.trip_id.0@)
    }

    fn key_text(&self) -> (r: Option<&String>) {
        Some(&self.trip_id.0)
    }
}

impl Keyed for StopTime {
    open spec fn key(&self) -> Option<Seq<char>> {
        Some(self.trip_id.0@)
    }

    fn key_text(&self) -> (r: Option<&String>) {
        Some(&self.trip_id.0)
    }
}

impl Keyed for Calendar {
    open spec fn key(&self) -> Option<Seq<char>> {
        Some(self.service_id.0@)
    }

    fn key_text(&self) -> (r: Option<&String>) {
        Some(&self.service_id.0)
    }
}

impl Keyed for CalendarDate {
    open spec fn key(&self) -> Option<Seq<char>> {
        Some(self.service_id.0@)
    }

    fn key_text(&self) -> (r: Option<&String>) {
        Some(&self.service_id.0)
    }
}

impl Keyed for FareAttribute {
    open spec fn key(&self) -> Option<Seq<char>> {
        Some(self.fare_id.0@)
    }

    fn key_text(&self) -> (r: Option<&String>) {
        Some(&self.fare_id.0)
    }
}

impl Keyed for FareRule {
    open spec fn key(&self) -> Option<Seq<char>> {
        Some(self.fare_id.0@)
    }

    fn key_text(&self) -> (r: Option<&String>) {
        Some(&self.fare_id.0)
    }
}

impl Keyed for Timeframe {
    open spec fn key(&self) -> Option<Seq<char>> {
        Some(self.timeframe_group_id.0@)
    }

    fn key_text(&self) -> (r: Option<&String>) {
        Some(&self.timeframe_group_id.0)
    }
}

impl Keyed for FareMedia {
    open spec fn key(&self) -> Option<Seq<char>> {
        Some(self.fare_media_id.0@)
    }

    fn key_text(&self) -> (r: Option<&String>) {
        Some(&self.fare_media_id.0)
    }
}

impl Keyed for FareProduct {
    open spec fn key(&self) -> Option<Seq<char>> {
        Some(self.fare_product_id.0@)
    }

    fn key_text(&self) -> (r: Option<&String>) {
        Some(&self.fare_product_id.0)
    }
}

impl Keyed for FareLegRule {
    open spec fn key(&self) -> Option<Seq<char>> {
        match self.leg_group_id {
            Some(id) => Some(id.0@),
            None => None,
        }
    }

    fn key_text(&self) -> (r: Option<&String>) {
        match &self.leg_group_id {
            Some(id) => Some(&id.0),
            None => None,
        }
    }
}

impl Keyed for Area {
    open spec fn key(&self) -> Option<Seq<char>> {
        Some(self.area_id.0@)
    }

    fn key_text(&self) -> (r: Option<&String>) {
        Some(&self.area_id.0)
    }
}

impl Keyed for Network {
    open spec fn key(&self) -> Option<Seq<char>> {
        Some(self.network_id.0@)
    }

    fn key_text(&self) -> (r: Option<&String>) {
        Some(&self.network_id.0)
    }
}

impl Keyed for RouteNetwork {
    open spec fn key(&self) -> Option<Seq<char>> {
        Some(self.route_id.0@)
    }

    fn key_text(&self) -> (r: Option<&String>) {
        Some(&self.route_id.0)
    }
}

impl Keyed for Shape {
    open spec fn key(&self) -> Option<Seq<char>> {
        Some(self.shape_id.0@)
    }

    fn key_text(&self) -> (r: Option<&String>) {
        Some(&self.shape_id.0)
    }
}

impl Keyed for Frequency {
    open spec fn key(&self) -> Option<Seq<char>> {
        Some(self.trip_id.0@)
    }

    fn key_text(&self) -> (r: Option<&String>) {
        Some(&self.trip_id.0)
    }
}

impl Keyed for Transfer {
    open spec fn key(&self) -> Option<Seq<char>> {
        match self.from_stop_id {
            Some(id) => Some(id.0@),
            None => None,
        }
    }

    fn key_text(&self) -> (r: Option<&String>) {
        match &self.from_stop_id {
            Some(id) => Some(&id.0),
            None => None,
        }
    }
}

impl Keyed for Pathway {
    open spec fn key(&self) -> Option<Seq<char>> {
        Some(self.pathway_id.0@)
    }

    fn key_text(&self) -> (r: Option<&String>) {
        Some(&self.pathway_id.0)
    }
}

impl Keyed for Level {
    open spec fn key(&self) -> Option<Seq<char>> {
        Some(self.level_id.0@)
    }

    fn key_text(&self) -> (r: Option<&String>) {
        Some(&self.level_id.0)
    }
}

impl Keyed for LocationGroup {
    open spec fn key(&self) -> Option<Seq<char>> {
        Some(self.location_group_id.0@)
    }

    fn key_text(&self) -> (r: Option<&String>) {
        Some(&self.location_group_id.0)
    }
}

impl Keyed for BookingRule {
    open spec fn key(&self) -> Option<Seq<char>> {
        Some(self.booking_rule_id.0@)
    }

    fn key_text(&self) -> (r: Option<&String>) {
        Some(&self.booking_rule_id.0)
    }
}

impl Keyed for Attribution {
    open spec fn key(&self) -> Option<Seq<char>> {
        match self.attribution_id {
            Some(id) => Some(id.0@),
            None => None,
        }
    }

    fn key_text(&self) -> (r: Option<&String>) {
        match &self.attribution_id {
            Some(id) => Some(&id.0),
            None => None,
        }
    }
}

impl Row for Agency {
    open spec fn as_schema(&self) -> Schema {
        Schema::Agency(*self)
    }

    open spec fn fault(&self) -> Option<(SchemaFault, Seq<char>)> {
        self.row_fault()
    }

    fn check_row(&self) -> (r: Result<(), Error>) {
        self.validate()
    }
}

impl Row for Stop {
    open spec fn as_schema(&self) -> Schema {
        Schema::Stop(*self)
    }

    open spec fn fault(&self) -> Option<(SchemaFault, Seq<char>)> {
        self.row_fault()
    }

    fn check_row(&self) -> (r: Result<(), Error>) {
        self.validate()
    }
}

impl Row for Route {
    open spec fn as_schema(&self) -> Schema {
        Schema::Route(*self)
    }

    open spec fn fault(&self) -> Option<(SchemaFault, Seq<char>)> {
        self.row_fault()
    }

    fn check_row(&self) -> (r: Result<(), Error>) {
        self.validate()
    }
}

impl Row for Trip {
    open spec fn as_schema(&self) -> Schema {
        Schema::Trip(*self)
    }

    open spec fn fault(&self) -> Option<(SchemaFault, Seq<char>)> {
        self.row_fault()
    }

    fn check_row(&self) -> (r: Result<(), Error>) {
        self.validate()
    }
}

impl Row for StopTime {
    open spec fn as_schema(&self) -> Schema {
        Schema::StopTime(*self)
    }

    open spec fn fault(&self) -> Option<(SchemaFault, Seq<char>)> {
        self.row_fault()
    }

    fn check_row(&self) -> (r: Result<(), Error>) {
        self.check()
    }
}

impl Row for Calendar {
    open spec fn as_schema(&self) -> Schema {
        Schema::Calendar(*self)
    }

    open spec fn fault(&self) -> Option<(SchemaFault, Seq<char>)> {
        self.row_fault()
    }

    fn check_row(&self) -> (r: Result<(), Error>) {
        self.validate()
    }
}

impl Row for CalendarDate {
    open spec fn as_schema(&self) -> Schema {
        Schema::CalendarDate(*self)
    }

    open spec fn fault(&self) -> Option<(SchemaFault, Seq<char>)> {
        self.row_fault()
    }

    fn check_row(&self) -> (r: Result<(), Error>) {
        self.validate()
    }
}

impl Row for FareAttribute {
    open spec fn as_schema(&self) -> Schema {
        Schema::FareAttribute(*self)
    }

    open spec fn fault(&self) -> Option<(SchemaFault, Seq<char>)> {
        self.row_fault()
    }

    fn check_row(&self) -> (r: Result<(), Error>) {
        self.validate()
    }
}

impl Row for FareRule {
    open spec fn as_schema(&self) -> Schema {
        Schema::FareRule(*self)
    }

    open spec fn fault(&self) -> Option<(SchemaFault, Seq<char>)> {
        self.row_fault()
    }

    fn check_row(&self) -> (r: Result<(), Error>) {
        self.validate()
    }
}

impl Row for Timeframe {
    open spec fn as_schema(&self) -> Schema {
        Schema::Timeframe(*self)
    }

    open spec fn fault(&self) -> Option<(SchemaFault, Seq<char>)> {
        self.row_fault()
    }

    fn check_row(&self) -> (r: Result<(), Error>) {
        self.validate()
    }
}

impl Row for FareMedia {
    open spec fn as_schema(&self) -> Schema {
        Schema::FareMedia(*self)
    }

    open spec fn fault(&self) -> Option<(SchemaFault, Seq<char>)> {
        self.row_fault()
    }

    fn check_row(&self) -> (r: Result<(), Error>) {
        self.validate()
    }
}

impl Row for FareProduct {
    open spec fn as_schema(&self) -> Schema {
        Schema::FareProduct(*self)
    }

    open spec fn fault(&self) -> Option<(SchemaFault, Seq<char>)> {
        self.row_fault()
    }

    fn check_row(&self) -> (r: Result<(), Error>) {
        self.validate()
    }
}

impl Row for FareLegRule {
    open spec fn as_schema(&self) -> Schema {
        Schema::FareLegRule(*self)
    }

    open spec fn fault(&self) -> Option<(SchemaFault, Seq<char>)> {
        self.row_fault()
    }

    fn check_row(&self) -> (r: Result<(), Error>) {
        self.validate()
    }
}

impl Row for FareTransferRule {
    open spec fn as_schema(&self) -> Schema {
        Schema::FareTransferRule(*self)
    }

    open spec fn fault(&self) -> Option<(SchemaFault, Seq<char>)> {
        self.row_fault()
    }

    fn check_row(&self) -> (r: Result<(), Error>) {
        self.validate()
    }
}

impl Row for Area {
    open spec fn as_schema(&self) -> Schema {
        Schema::Area(*self)
    }

    open spec fn fault(&self) -> Option<(SchemaFault, Seq<char>)> {
        self.row_fault()
    }

    fn check_row(&self) -> (r: Result<(), Error>) {
        self.validate()
    }
}

impl Row for StopArea {
    open spec fn as_schema(&self) -> Schema {
        Schema::StopArea(*self)
    }

    open spec fn fault(&self) -> Option<(SchemaFault, Seq<char>)> {
        self.row_fault()
    }

    fn check_row(&self) -> (r: Result<(), Error>) {
        self.validate()
    }
}

impl Row for Network {
    open spec fn as_schema(&self) -> Schema {
        Schema::Network(*self)
    }

    open spec fn fault(&self) -> Option<(SchemaFault, Seq<char>)> {
        self.row_fault()
    }

    fn check_row(&self) -> (r: Result<(), Error>) {
        self.validate()
    }
}

impl Row for RouteNetwork {
    open spec fn as_schema(&self) -> Schema {
        Schema::RouteNetwork(*self)
    }

    open spec fn fault(&self) -> Option<(SchemaFault, Seq<char>)> {
        self.row_fault()
    }

    fn check_row(&self) -> (r: Result<(), Error>) {
        self.validate()
    }
}

impl Row for Shape {
    open spec fn as_schema(&self) -> Schema {
        Schema::Shape(*self)
    }

    open spec fn fault(&self) -> Option<(SchemaFault, Seq<char>)> {
        self.row_fault()
    }

    fn check_row(&self) -> (r: Result<(), Error>) {
        self.validate()
    }
}

impl Row for Frequency {
    open spec fn as_schema(&self) -> Schema {
        Schema::Frequency(*self)
    }

    open spec fn fault(&self) -> Option<(SchemaFault, Seq<char>)> {
        self.row_fault()
    }

    fn check_row(&self) -> (r: Result<(), Error>) {
        self.validate()
    }
}

impl Row for Transfer {
    open spec fn as_schema(&self) -> Schema {
        Schema::Transfer(*self)
    }

    open spec fn fault(&self) -> Option<(SchemaFault, Seq<char>)> {
        self.row_fault()
    }

    fn check_row(&self) -> (r: Result<(), Error>) {
        self.validate()
    }
}

impl Row for Pathway {
    open spec fn as_schema(&self) -> Schema {
        Schema::Pathway(*self)
    }

    open spec fn fault(&self) -> Option<(SchemaFault, Seq<char>)> {
        self.row_fault()
    }

    fn check_row(&self) -> (r: Result<(), Error>) {
        self.validate()
    }
}

impl Row for Level {
    open spec fn as_schema(&self) -> Schema {
        Schema::Level(*self)
    }

    open spec fn fault(&self) -> Option<(SchemaFault, Seq<char>)> {
        self.row_fault()
    }

    fn check_row(&self) -> (r: Result<(), Error>) {
        self.validate()
    }
}

impl Row for LocationGroup {
    open spec fn as_schema(&self) -> Schema {
        Schema::LocationGroup(*self)
    }

    open spec fn fault(&self) -> Option<(SchemaFault, Seq<char>)> {
        self.row_fault()
    }

    fn check_row(&self) -> (r: Result<(), Error>) {
        self.validate()
    }
}

impl Row for LocationGroupStop {
    open spec fn as_schema(&self) -> Schema {
        Schema::LocationGroupStop(*self)
    }

    open spec fn fault(&self) -> Option<(SchemaFault, Seq<char>)> {
        self.row_fault()
    }

    fn check_row(&self) -> (r: Result<(), Error>) {
        self.validate()
    }
}

impl Row for BookingRule {
    open spec fn as_schema(&self) -> Schema {
        Schema::BookingRule(*self)
    }

    open spec fn fault(&self) -> Option<(SchemaFault, Seq<char>)> {
        self.row_fault()
    }

    fn check_row(&self) -> (r: Result<(), Error>) {
        self.validate()
    }
}

impl Row for Translation {
    open spec fn as_schema(&self) -> Schema {
        Schema::Translation(*self)
    }

    open spec fn fault(&self) -> Option<(SchemaFault, Seq<char>)> {
        self.row_fault()
    }

    fn check_row(&self) -> (r: Result<(), Error>) {
        self.validate()
    }
}

impl Row for Attribution {
    open spec fn as_schema(&self) -> Schema {
        Schema::Attribution(*self)
    }

    open spec fn fault(&self) -> Option<(SchemaFault, Seq<char>)> {
        self.row_fault()
    }

    fn check_row(&self) -> (r: Result<(), Error>) {
        self.validate()
    }
}

impl Row for FeedInfo {
    open spec fn as_schema(&self) -> Schema {
        Schema::FeedInfo(*self)
    }

    open spec fn fault(&self) -> Option<(SchemaFault, Seq<char>)> {
        self.row_fault()
    }

    fn check_row(&self) -> (r: Result<(), Error>) {
        self.validate()
    }
}

/// Every table of a feed.
pub struct Dataset {
    /// Transit agencies; more than one needs identifiers.
    pub agencies: Vec<Agency>,
    /// Stops, stations and other locations.
    pub stops: Vec<Stop>,
    /// Routes.
    pub routes: Vec<Route>,
    /// Trips.
    pub trips: Vec<Trip>,
    /// Stop times; keyed by trip and stop sequence.
    pub stop_times: Vec<StopTime>,
    /// Weekly service patterns.
    pub calendar: Vec<Calendar>,
    /// Service exceptions; keyed by service and date.
    pub calendar_dates: Vec<CalendarDate>,
    /// Fare classes.
    pub fare_attributes: Vec<FareAttribute>,
    /// Rules that apply fare classes.
    pub fare_rules: Vec<FareRule>,
    /// Timeframes of fare rules.
    pub timeframes: Vec<Timeframe>,
    /// Fare media.
    pub fare_medias: Vec<FareMedia>,
    /// Fare products; keyed by product and medium.
    pub fare_products: Vec<FareProduct>,
    /// Fare rules of legs.
    pub fare_leg_rules: Vec<FareLegRule>,
    /// Fare rules of transfers.
    pub fare_transfers: Vec<FareTransferRule>,
    /// Areas.
    pub areas: Vec<Area>,
    /// Assignments of stops to areas.
    pub stops_areas: Vec<StopArea>,
    /// Networks of routes.
    pub networks: Vec<Network>,
    /// Assignments of routes to networks; keyed by route.
    pub routes_networks: Vec<RouteNetwork>,
    /// Shape points; keyed by shape and point sequence.
    pub shapes: Vec<Shape>,
    /// Frequencies; keyed by trip and start time.
    pub frequencies: Vec<Frequency>,
    /// Transfer rules.
    pub transfers: Vec<Transfer>,
    /// Pathways within stations.
    pub pathways: Vec<Pathway>,
    /// Levels within stations.
    pub levels: Vec<Level>,
    /// Location groups.
    pub location_groups: Vec<LocationGroup>,
    /// Assignments of stops to location groups.
    pub location_groups_stops: Vec<LocationGroupStop>,
    /// Booking rules.
    pub booking_rules: Vec<BookingRule>,
    /// Translations.
    pub translations: Vec<Translation>,
    /// Attributions.
    pub attributions: Vec<Attribution>,
    /// Dataset metadata, if given.
    pub feed_info: Option<FeedInfo>,
}

impl Dataset {
    /// A dataset with every table empty.
    pub fn default() -> (r: Dataset)
        ensures
            r.agencies@.len() == 0,
            r.stops@.len() == 0,
            r.routes@.len() == 0,
            r.trips@.len() == 0,
            r.stop_times@.len() == 0,
            r.calendar@.len() == 0,
            r.calendar_dates@.len() == 0,
            r.fare_attributes@.len() == 0,
            r.fare_rules@.len() == 0,
            r.timeframes@.len() == 0,
            r.fare_medias@.len() == 0,
            r.fare_products@.len() == 0,
            r.fare_leg_rules@.len() == 0,
            r.fare_transfers@.len() == 0,
            r.areas@.len() == 0,
            r.stops_areas@.len() == 0,
            r.networks@.len() == 0,
            r.routes_networks@.len() == 0,
            r.shapes@.len() == 0,
            r.frequencies@.len() == 0,
            r.transfers@.len() == 0,
            r.pathways@.len() == 0,
            r.levels@.len() == 0,
            r.location_groups@.len() == 0,
            r.location_groups_stops@.len() == 0,
            r.booking_rules@.len() == 0,
            r.translations@.len() == 0,
            r.attributions@.len() == 0,
            r.feed_info is None,
    {
        Dataset {
            agencies: Vec::new(),
            stops: Vec::new(),
            routes: Vec::new(),
            trips: Vec::new(),
            stop_times: Vec::new(),
            calendar: Vec::new(),
            calendar_dates: Vec::new(),
            fare_attributes: Vec::new(),
            fare_rules: Vec::new(),
            timeframes: Vec::new(),
            fare_medias: Vec::new(),
            fare_products: Vec::new(),
            fare_leg_rules: Vec::new(),
            fare_transfers: Vec::new(),
            areas: Vec::new(),
            stops_areas: Vec::new(),
            networks: Vec::new(),
            routes_networks: Vec::new(),
            shapes: Vec::new(),
            frequencies: Vec::new(),
            transfers: Vec::new(),
            pathways: Vec::new(),
            levels: Vec::new(),
            location_groups: Vec::new(),
            location_groups_stops: Vec::new(),
            booking_rules: Vec::new(),
            translations: Vec::new(),
            attributions: Vec::new(),
            feed_info: None,
        }
    }

    /// The fault of the first record that breaks a rule of its row, tables
    /// taken in a fixed order and records in the order of their table.
    pub open spec fn rows_fault(&self) -> Option<(SchemaFault, Seq<char>)> {
        if first_fault(self.agencies@) is Some {
            first_fault(self.agencies@)
        } else if first_fault(self.stops@) is Some {
            first_fault(self.stops@)
        } else if first_fault(self.routes@) is Some {
            first_fault(self.routes@)
        } else if first_fault(self.trips@) is Some {
            first_fault(self.trips@)
        } else if first_fault(self.stop_times@) is Some {
            first_fault(self.stop_times@)
        } else if first_fault(self.calendar@) is Some {
            first_fault(self.calendar@)
        } else if first_fault(self.calendar_dates@) is Some {
            first_fault(self.calendar_dates@)
        } else if first_fault(self.fare_attributes@) is Some {
            first_fault(self.fare_attributes@)
        } else if first_fault(self.fare_rules@) is Some {
            first_fault(self.fare_rules@)
        } else if first_fault(self.timeframes@) is Some {
            first_fault(self.timeframes@)
        } else if first_fault(self.fare_medias@) is Some {
            first_fault(self.fare_medias@)
        } else if first_fault(self.fare_products@) is Some {
            first_fault(self.fare_products@)
        } else if first_fault(self.fare_leg_rules@) is Some {
            first_fault(self.fare_leg_rules@)
        } else if first_fault(self.fare_transfers@) is Some {
            first_fault(self.fare_transfers@)
        } else if first_fault(self.areas@) is Some {
            first_fault(self.areas@)
        } else if first_fault(self.stops_areas@) is Some {
            first_fault(self.stops_areas@)
        } else if first_fault(self.networks@) is Some {
            first_fault(self.networks@)
        } else if first_fault(self.routes_networks@) is Some {
            first_fault(self.routes_networks@)
        } else if first_fault(self.shapes@) is Some {
            first_fault(self.shapes@)
        } else if first_fault(self.frequencies@) is Some {
            first_fault(self.frequencies@)
        } else if first_fault(self.transfers@) is Some {
            first_fault(self.transfers@)
        } else if first_fault(self.pathways@) is Some {
            first_fault(self.pathways@)
        } else if first_fault(self.levels@) is Some {
            first_fault(self.levels@)
        } else if first_fault(self.location_groups@) is Some {
            first_fault(self.location_groups@)
        } else if first_fault(self.location_groups_stops@) is Some {
            first_fault(self.location_groups_stops@)
        } else if first_fault(self.booking_rules@) is Some {
            first_fault(self.booking_rules@)
        } else if first_fault(self.translations@) is Some {
            first_fault(self.translations@)
        } else if first_fault(self.attributions@) is Some {
            first_fault(self.attributions@)
        } else {
            match self.feed_info {
                Some(fi) => fi.row_fault(),
                None => None,
            }
        }
    }

    /// The record that the first row fault concerns.
    pub open spec fn rows_fault_record(&self) -> Option<Schema> {
        if first_fault(self.agencies@) is Some {
            first_faulty_from(self.agencies@, 0)
        } else if first_fault(self.stops@) is Some {
            first_faulty_from(self.stops@, 0)
        } else if first_fault(self.routes@) is Some {
            first_faulty_from(self.routes@, 0)
        } else if first_fault(self.trips@) is Some {
            first_faulty_from(self.trips@, 0)
        } else if first_fault(self.stop_times@) is Some {
            first_faulty_from(self.stop_times@, 0)
        } else if first_fault(self.calendar@) is Some {
            first_faulty_from(self.calendar@, 0)
        } else if first_fault(self.calendar_dates@) is Some {
            first_faulty_from(self.calendar_dates@, 0)
        } else if first_fault(self.fare_attributes@) is Some {
            first_faulty_from(self.fare_attributes@, 0)
        } else if first_fault(self.fare_rules@) is Some {
            first_faulty_from(self.fare_rules@, 0)
        } else if first_fault(self.timeframes@) is Some {
            first_faulty_from(self.timeframes@, 0)
        } else if first_fault(self.fare_medias@) is Some {
            first_faulty_from(self.fare_medias@, 0)
        } else if first_fault(self.fare_products@) is Some {
            first_faulty_from(self.fare_products@, 0)
        } else if first_fault(self.fare_leg_rules@) is Some {
            first_faulty_from(self.fare_leg_rules@, 0)
        } else if first_fault(self.fare_transfers@) is Some {
            first_faulty_from(self.fare_transfers@, 0)
        } else if first_fault(self.areas@) is Some {
            first_faulty_from(self.areas@, 0)
        } else if first_fault(self.stops_areas@) is Some {
            first_faulty_from(self.stops_areas@, 0)
        } else if first_fault(self.networks@) is Some {
            first_faulty_from(self.networks@, 0)
        } else if first_fault(self.routes_networks@) is Some {
            first_faulty_from(self.routes_networks@, 0)
        } else if first_fault(self.shapes@) is Some {
            first_faulty_from(self.shapes@, 0)
        } else if first_fault(self.frequencies@) is Some {
            first_faulty_from(self.frequencies@, 0)
        } else if first_fault(self.transfers@) is Some {
            first_faulty_from(self.transfers@, 0)
        } else if first_fault(self.pathways@) is Some {
            first_faulty_from(self.pathways@, 0)
        } else if first_fault(self.levels@) is Some {
            first_faulty_from(self.levels@, 0)
        } else if first_fault(self.location_groups@) is Some {
            first_faulty_from(self.location_groups@, 0)
        } else if first_fault(self.location_groups_stops@) is Some {
            first_faulty_from(self.location_groups_stops@, 0)
        } else if first_fault(self.booking_rules@) is Some {
            first_faulty_from(self.booking_rules@, 0)
        } else if first_fault(self.translations@) is Some {
            first_faulty_from(self.translations@, 0)
        } else if first_fault(self.attributions@) is Some {
            first_faulty_from(self.attributions@, 0)
        } else {
            match self.feed_info {
                Some(fi) => if fi.row_fault() is Some {
                    Some(Schema::FeedInfo(fi))
                } else {
                    None
                },
                None => None,
            }
        }
    }

    /// Checks the rules of each row; the first record that breaks one is
    /// reported.
    pub fn validate_rows(&self) -> (r: Result<(), Error>)
        ensures
            reports_schema_fault(r, self.rows_fault()),
            r is Err ==> carries_record(r, self.rows_fault_record().unwrap()),
    {
        let r = check_rows(&self.agencies);
        if r.is_err() {
            return r;
        }
        let r = check_rows(&self.stops);
        if r.is_err() {
            return r;
        }
        let r = check_rows(&self.routes);
        if r.is_err() {
            return r;
        }
        let r = check_rows(&self.trips);
        if r.is_err() {
            return r;
        }
        let r = check_rows(&self.stop_times);
        if r.is_err() {
            return r;
        }
        let r = check_rows(&self.calendar);
        if r.is_err() {
            return r;
        }
        let r = check_rows(&self.calendar_dates);
        if r.is_err() {
            return r;
        }
        let r = check_rows(&self.fare_attributes);
        if r.is_err() {
            return r;
        }
        let r = check_rows(&self.fare_rules);
        if r.is_err() {
            return r;
        }
        let r = check_rows(&self.timeframes);
        if r.is_err() {
            return r;
        }
        let r = check_rows(&self.fare_medias);
        if r.is_err() {
            return r;
        }
        let r = check_rows(&self.fare_products);
        if r.is_err() {
            return r;
        }
        let r = check_rows(&self.fare_leg_rules);
        if r.is_err() {
            return r;
        }
        let r = check_rows(&self.fare_transfers);
        if r.is_err() {
            return r;
        }
        let r = check_rows(&self.areas);
        if r.is_err() {
            return r;
        }
        let r = check_rows(&self.stops_areas);
        if r.is_err() {
            return r;
        }
        let r = check_rows(&self.networks);
        if r.is_err() {
            return r;
        }
        let r = check_rows(&self.routes_networks);
        if r.is_err() {
            return r;
        }
        let r = check_rows(&self.shapes);
        if r.is_err() {
            return r;
        }
        let r = check_rows(&self.frequencies);
        if r.is_err() {
            return r;
        }
        let r = check_rows(&self.transfers);
        if r.is_err() {
            return r;
        }
        let r = check_rows(&self.pathways);
        if r.is_err() {
            return r;
        }
        let r = check_rows(&self.levels);
        if r.is_err() {
            return r;
        }
        let r = check_rows(&self.location_groups);
        if r.is_err() {
            return r;
        }
        let r = check_rows(&self.location_groups_stops);
        if r.is_err() {
            return r;
        }
        let r = check_rows(&self.booking_rules);
        if r.is_err() {
            return r;
        }
        let r = check_rows(&self.translations);
        if r.is_err() {
            return r;
        }
        let r = check_rows(&self.attributions);
        if r.is_err() {
            return r;
        }
        match &self.feed_info {
            Some(fi) => fi.validate(),
            None => Ok(()),
        }
    }
}

} // verus!
