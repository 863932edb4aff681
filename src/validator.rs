//! The validator: the rules of every row, then the rules of the dataset as a
//! whole, in a fixed order, stopping at the first failure.
use vstd::prelude::*;

use crate::dataset::Dataset;
use crate::schemas::Schema;
use crate::error::{carries_payload, carries_record, dataset_outcome, reports_dataset_fault, reports_schema_fault, DatasetFault, Error};

verus! {

impl Dataset {
    /// Every rule of the dataset as a whole holds. `ignore_missing_calendar_dates`
    /// accepts a dataset without any calendar.
    pub open spec fn dataset_rules_hold(&self, ignore_missing_calendar_dates: bool) -> bool {
        &&& self.primary_keys_ok()
        &&& self.agencies_ok()
        &&& self.stops_ok()
        &&& self.routes_ok()
        &&& self.trips_ok()
        &&& self.stop_times_ok()
        &&& self.calendar_ok(ignore_missing_calendar_dates)
        &&& self.fare_attributes_ok()
        &&& self.fare_rules_ok()
        &&& self.timeframe_services_ok()
        &&& self.timeframes_disjoint()
        &&& self.fare_products_ok()
        &&& self.fare_leg_rules_ok()
        &&& self.fare_transfers_ok()
        &&& self.stops_areas_ok()
        &&& self.routes_networks_ok()
        &&& self.shapes_ok()
        &&& self.frequencies_ok()
        &&& self.transfers_ok()
        &&& self.pathways_ok()
        &&& self.location_ids_distinct()
        &&& self.location_groups_stops_ok()
        &&& self.booking_rules_ok()
        &&& self.translations_ok()
        &&& self.feed_info_ok()
        &&& self.attributions_ok()
    }

    /// The fault that the checks of the dataset report: that of the first
    /// check, in the order in which they run, that fails.
    pub open spec fn dataset_fault(&self, ignore_missing_calendar_dates: bool) -> Option<(DatasetFault, Seq<char>)> {
        if self.primary_keys_fault() is Some {
            self.primary_keys_fault()
        } else if self.agencies_fault() is Some {
            self.agencies_fault()
        } else if self.stop_fault_from(0) is Some {
            self.stop_fault_from(0)
        } else if self.route_fault_from(0) is Some {
            self.route_fault_from(0)
        } else if self.trip_fault_from(0) is Some {
            self.trip_fault_from(0)
        } else if self.stop_times_fault() is Some {
            self.stop_times_fault()
        } else if self.calendar_fault(ignore_missing_calendar_dates) is Some {
            self.calendar_fault(ignore_missing_calendar_dates)
        } else if self.fare_attribute_fault_from(0) is Some {
            self.fare_attribute_fault_from(0)
        } else if self.fare_rules_fault_from(0) is Some {
            self.fare_rules_fault_from(0)
        } else if self.timeframe_services_fault_from(0) is Some {
            self.timeframe_services_fault_from(0)
        } else if self.timeframes_fault() is Some {
            self.timeframes_fault()
        } else if self.fare_products_fault_from(0) is Some {
            self.fare_products_fault_from(0)
        } else if self.fare_leg_rules_fault_from(0) is Some {
            self.fare_leg_rules_fault_from(0)
        } else if self.fare_transfers_fault_from(0) is Some {
            self.fare_transfers_fault_from(0)
        } else if self.stops_areas_fault_from(0) is Some {
            self.stops_areas_fault_from(0)
        } else if self.routes_networks_fault_from(0) is Some {
            self.routes_networks_fault_from(0)
        } else if self.shapes_fault() is Some {
            self.shapes_fault()
        } else if self.frequencies_fault_from(0) is Some {
            self.frequencies_fault_from(0)
        } else if self.transfers_fault_from(0) is Some {
            self.transfers_fault_from(0)
        } else if self.pathway_fault_from(0) is Some {
            self.pathway_fault_from(0)
        } else if self.location_ids_fault() is Some {
            self.location_ids_fault()
        } else if self.location_groups_stops_fault_from(0) is Some {
            self.location_groups_stops_fault_from(0)
        } else if self.booking_rules_fault_from(0) is Some {
            self.booking_rules_fault_from(0)
        } else if self.translation_fault_from(0) is Some {
            self.translation_fault_from(0)
        } else if self.feed_info_fault() is Some {
            self.feed_info_fault()
        } else if self.attributions_fault_from(0) is Some {
            self.attributions_fault_from(0)
        } else {
            None
        }
    }

    /// The value and records that the first failing check of the dataset
    /// reports.
    pub open spec fn dataset_fault_payload(&self, ignore_missing_calendar_dates: bool) -> Option<(Seq<char>, Seq<Schema>)> {
        if self.primary_keys_fault() is Some {
            self.primary_keys_payload()
        } else if self.agencies_fault() is Some {
            self.agencies_payload()
        } else if self.stop_fault_from(0) is Some {
            self.stop_payload_from(0)
        } else if self.route_fault_from(0) is Some {
            self.route_payload_from(0)
        } else if self.trip_fault_from(0) is Some {
            self.trip_payload_from(0)
        } else if self.stop_times_fault() is Some {
            self.stop_times_payload()
        } else if self.calendar_fault(ignore_missing_calendar_dates) is Some {
            self.calendar_payload(ignore_missing_calendar_dates)
        } else if self.fare_attribute_fault_from(0) is Some {
            self.fare_attribute_payload_from(0)
        } else if self.fare_rules_fault_from(0) is Some {
            self.fare_rules_payload_from(0)
        } else if self.timeframe_services_fault_from(0) is Some {
            self.timeframe_services_payload_from(0)
        } else if self.timeframes_fault() is Some {
            self.timeframes_payload_from(0, 1)
        } else if self.fare_products_fault_from(0) is Some {
            self.fare_products_payload_from(0)
        } else if self.fare_leg_rules_fault_from(0) is Some {
            self.fare_leg_rules_payload_from(0)
        } else if self.fare_transfers_fault_from(0) is Some {
            self.fare_transfers_payload_from(0)
        } else if self.stops_areas_fault_from(0) is Some {
            self.stops_areas_payload_from(0)
        } else if self.routes_networks_fault_from(0) is Some {
            self.routes_networks_payload_from(0)
        } else if self.shapes_fault() is Some {
            self.shapes_payload_from(0, 0)
        } else if self.frequencies_fault_from(0) is Some {
            self.frequencies_payload_from(0)
        } else if self.transfers_fault_from(0) is Some {
            self.transfers_payload_from(0)
        } else if self.pathway_fault_from(0) is Some {
            self.pathway_payload_from(0)
        } else if self.location_ids_fault() is Some {
            self.location_ids_payload()
        } else if self.location_groups_stops_fault_from(0) is Some {
            self.location_groups_stops_payload_from(0)
        } else if self.booking_rules_fault_from(0) is Some {
            self.booking_rules_payload_from(0)
        } else if self.translation_fault_from(0) is Some {
            self.translation_payload_from(0)
        } else if self.feed_info_fault() is Some {
            self.feed_info_payload()
        } else if self.attributions_fault_from(0) is Some {
            self.attributions_payload_from(0)
        } else {
            None
        }
    }

    /// Checks the rules of the dataset as a whole, in order, and reports the
    /// first failure. Primary keys come first: the loader keeps every record,
    /// so a repeated key is reported here.
    pub fn validate_dataset(&self, ignore_missing_calendar_dates: bool) -> (r: Result<(), Error>)
        ensures
            dataset_outcome(r, self.dataset_rules_hold(ignore_missing_calendar_dates)),
            reports_dataset_fault(r, self.dataset_fault(ignore_missing_calendar_dates)),
            carries_payload(r, self.dataset_fault_payload(ignore_missing_calendar_dates)),
    {
        let r = self.check_primary_keys();
        if r.is_err() {
            return r;
        }
        let r = self.check_agencies();
        if r.is_err() {
            return r;
        }
        let r = self.check_stops();
        if r.is_err() {
            return r;
        }
        let r = self.check_routes();
        if r.is_err() {
            return r;
        }
        let r = self.check_trips();
        if r.is_err() {
            return r;
        }
        let r = self.check_stop_times();
        if r.is_err() {
            return r;
        }
        let r = self.check_calendar(ignore_missing_calendar_dates);
        if r.is_err() {
            return r;
        }
        let r = self.check_fare_attributes();
        if r.is_err() {
            return r;
        }
        let r = self.check_fare_rules();
        if r.is_err() {
            return r;
        }
        let r = self.check_timeframe_services();
        if r.is_err() {
            return r;
        }
        let r = self.check_timeframe_overlaps();
        if r.is_err() {
            return r;
        }
        let r = self.check_fare_products();
        if r.is_err() {
            return r;
        }
        let r = self.check_fare_leg_rules();
        if r.is_err() {
            return r;
        }
        let r = self.check_fare_transfers();
        if r.is_err() {
            return r;
        }
        let r = self.check_stops_areas();
        if r.is_err() {
            return r;
        }
        let r = self.check_routes_networks();
        if r.is_err() {
            return r;
        }
        let r = self.check_shapes();
        if r.is_err() {
            return r;
        }
        let r = self.check_frequencies();
        if r.is_err() {
            return r;
        }
        let r = self.check_transfers();
        if r.is_err() {
            return r;
        }
        let r = self.check_pathways();
        if r.is_err() {
            return r;
        }
        let r = self.check_location_ids();
        if r.is_err() {
            return r;
        }
        let r = self.check_location_groups_stops();
        if r.is_err() {
            return r;
        }
        let r = self.check_booking_rules();
        if r.is_err() {
            return r;
        }
        let r = self.check_translations();
        if r.is_err() {
            return r;
        }
        let r = self.check_feed_info();
        if r.is_err() {
            return r;
        }
        self.check_attributions()
    }

    /// Checks the dataset without changing it: first the rules of every row, reporting the
    /// first record that breaks one; then the rules of the dataset as a
    /// whole. `ignore_missing_calendar_dates` accepts a dataset without any
    /// calendar; production feeds do not set it.
    pub fn check(&self, ignore_missing_calendar_dates: bool) -> (r: Result<(), Error>)
        ensures
            self.rows_fault() is Some ==> reports_schema_fault(r, self.rows_fault()),
            self.rows_fault() is Some ==> carries_record(r, self.rows_fault_record().unwrap()),
            self.rows_fault() is None ==> dataset_outcome(
                r,
                self.dataset_rules_hold(ignore_missing_calendar_dates),
            ),
            self.rows_fault() is None ==> reports_dataset_fault(
                r,
                self.dataset_fault(ignore_missing_calendar_dates),
            ),
            self.rows_fault() is None ==> carries_payload(
                r,
                self.dataset_fault_payload(ignore_missing_calendar_dates),
            ),
    {
        let r = self.validate_rows();
        if r.is_err() {
            return r;
        }
        self.validate_dataset(ignore_missing_calendar_dates)
    }

    /// Both datasets agree on every table but the stop times.
    pub open spec fn same_except_stop_times(&self, other: &Dataset) -> bool {
        &&& self.agencies == other.agencies
        &&& self.stops == other.stops
        &&& self.routes == other.routes
        &&& self.trips == other.trips
        &&& self.calendar == other.calendar
        &&& self.calendar_dates == other.calendar_dates
        &&& self.fare_attributes == other.fare_attributes
        &&& self.fare_rules == other.fare_rules
        &&& self.timeframes == other.timeframes
        &&& self.fare_medias == other.fare_medias
        &&& self.fare_products == other.fare_products
        &&& self.fare_leg_rules == other.fare_leg_rules
        &&& self.fare_transfers == other.fare_transfers
        &&& self.areas == other.areas
        &&& self.stops_areas == other.stops_areas
        &&& self.networks == other.networks
        &&& self.routes_networks == other.routes_networks
        &&& self.shapes == other.shapes
        &&& self.frequencies == other.frequencies
        &&& self.transfers == other.transfers
        &&& self.pathways == other.pathways
        &&& self.levels == other.levels
        &&& self.location_groups == other.location_groups
        &&& self.location_groups_stops == other.location_groups_stops
        &&& self.booking_rules == other.booking_rules
        &&& self.translations == other.translations
        &&& self.feed_info == other.feed_info
        &&& self.attributions == other.attributions
    }

    /// Sets the pickup and drop-off types of every stop time to their
    /// defaults.
    pub fn apply_stop_time_defaults(&mut self)
        ensures
            final(self).same_except_stop_times(old(self)),
            final(self).stop_times@.len() == old(self).stop_times@.len(),
            forall|k: int|
                0 <= k < old(self).stop_times@.len() ==> final(self).stop_times@[k]
                    == (#[trigger] old(self).stop_times@[k]).defaulted(),
    {
        let n = self.stop_times.len();
        let mut i: usize = 0;
        while i < n
            invariant
                self.same_except_stop_times(old(self)),
                n == old(self).stop_times@.len(),
                self.stop_times@.len() == n,
                0 <= i <= n,
                forall|k: int|
                    0 <= k < i ==> self.stop_times@[k] == (#[trigger] old(self).stop_times@[k]).defaulted(),
                forall|k: int| i <= k < n ==> #[trigger] self.stop_times@[k] == old(self).stop_times@[k],
            decreases n - i,
        {
            let mut st = self.stop_times[i].copy();
            st.apply_defaults();
            self.stop_times.set(i, st);
            i += 1;
        }
    }

    /// Validates the dataset as `check` does and, when it passes, sets the
    /// pickup and drop-off types of every stop time to their defaults. On
    /// failure the dataset is left as it was.
    pub fn validate(&mut self, ignore_missing_calendar_dates: bool) -> (r: Result<(), Error>)
        ensures
            old(self).rows_fault() is Some ==> reports_schema_fault(r, old(self).rows_fault()),
            old(self).rows_fault() is Some ==> carries_record(r, old(self).rows_fault_record().unwrap()),
            old(self).rows_fault() is None ==> dataset_outcome(
                r,
                old(self).dataset_rules_hold(ignore_missing_calendar_dates),
            ),
            old(self).rows_fault() is None ==> reports_dataset_fault(
                r,
                old(self).dataset_fault(ignore_missing_calendar_dates),
            ),
            old(self).rows_fault() is None ==> carries_payload(
                r,
                old(self).dataset_fault_payload(ignore_missing_calendar_dates),
            ),
            r is Err ==> *final(self) == *old(self),
            r is Ok ==> final(self).same_except_stop_times(old(self)) && final(self).stop_times@.len()
                == old(self).stop_times@.len() && forall|k: int|
                0 <= k < old(self).stop_times@.len() ==> final(self).stop_times@[k]
                    == (#[trigger] old(self).stop_times@[k]).defaulted(),
    {
        let r = self.check(ignore_missing_calendar_dates);
        if r.is_ok() {
            self.apply_stop_time_defaults();
        }
        r
    }
}

} // verus!
