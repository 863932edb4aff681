//! What holds of every dataset that the validator accepts.
use vstd::prelude::*;

use crate::checks_core::{arrival_lt, chain_end, visits_before, ChainEnd};
use crate::checks_feed::{multilingual, opt_view};
use crate::checks_links::timeframes_overlap;
use crate::dataset::Dataset;
use crate::error::{dataset_outcome, reports_schema_fault, Error};

verus! {

impl Dataset {
    /// The validator accepts the dataset: no row breaks a rule of its table
    /// and every rule of the dataset holds.
    pub open spec fn accepted(&self, ignore_missing_calendar_dates: bool) -> bool {
        self.rows_fault() is None && self.dataset_rules_hold(ignore_missing_calendar_dates)
    }
}

/// `validate` succeeds exactly on the datasets that it accepts.
pub proof fn lemma_validate_accepts(ds: &Dataset, flag: bool, r: Result<(), Error>)
    requires
        ds.rows_fault() is Some ==> reports_schema_fault(r, ds.rows_fault()),
        ds.rows_fault() is None ==> dataset_outcome(r, ds.dataset_rules_hold(flag)),
    ensures
        r is Ok <==> ds.accepted(flag),
{
}

/// In an accepted dataset, walking up the parent stations from any location
/// with a parent reaches a station within as many steps as there are stops,
/// so the walk meets no cycle.
pub proof fn lemma_parent_chain_reaches_station(ds: &Dataset, flag: bool, i: int)
    requires
        ds.accepted(flag),
        0 <= i < ds.stops@.len(),
        ds.stops@[i].parent_station is Some,
    ensures
        chain_end(ds.stops@, ds.stops@[i].parent_station.unwrap().0@, ds.stops@.len() as nat)
            == ChainEnd::Station,
{
    assert(ds.stop_ok(ds.stops@[i]));
}

/// In an accepted dataset, along each trip the stop sequence strictly
/// increases in the order of arrival, and the distance travelled, where two
/// stop times give it, strictly increases in the order of visit.
pub proof fn lemma_stop_times_increase(ds: &Dataset, flag: bool, i: int, j: int)
    requires
        ds.accepted(flag),
        0 <= i < ds.stop_times@.len(),
        0 <= j < ds.stop_times@.len(),
        i != j,
        ds.stop_times@[i].trip_id.0@ == ds.stop_times@[j].trip_id.0@,
    ensures
        ds.stop_times@[i].stop_sequence != ds.stop_times@[j].stop_sequence,
        arrival_lt(ds.stop_times@[i], ds.stop_times@[j]) ==> ds.stop_times@[i].stop_sequence
            < ds.stop_times@[j].stop_sequence,
        (visits_before(ds.stop_times@[i], ds.stop_times@[j])
            && ds.stop_times@[i].shape_dist_traveled is Some
            && ds.stop_times@[j].shape_dist_traveled is Some) ==> ds.stop_times@[i].shape_dist_traveled.unwrap().key
            < ds.stop_times@[j].shape_dist_traveled.unwrap().key,
{
    assert(crate::checks_core::stop_time_pair_ok(ds.stop_times@[i], ds.stop_times@[j]));
}

/// In an accepted dataset, along each shape the distance travelled, where
/// two points give it, strictly increases with the point sequence.
pub proof fn lemma_shape_distances_increase(ds: &Dataset, flag: bool, i: int, j: int)
    requires
        ds.accepted(flag),
        0 <= i < ds.shapes@.len(),
        0 <= j < ds.shapes@.len(),
        ds.shapes@[i].shape_id.0@ == ds.shapes@[j].shape_id.0@,
        ds.shapes@[i].shape_pt_sequence < ds.shapes@[j].shape_pt_sequence,
        ds.shapes@[i].shape_dist_traveled is Some,
        ds.shapes@[j].shape_dist_traveled is Some,
    ensures
        ds.shapes@[i].shape_dist_traveled.unwrap().key < ds.shapes@[j].shape_dist_traveled.unwrap().key,
{
    assert(crate::checks_links::shape_pair_ok(ds.shapes@[i], ds.shapes@[j]));
}

/// In an accepted dataset, two distinct timeframes of one group and service
/// with both ends given have disjoint half-open windows.
pub proof fn lemma_timeframes_disjoint(ds: &Dataset, flag: bool, i: int, j: int)
    requires
        ds.accepted(flag),
        0 <= i < ds.timeframes@.len(),
        0 <= j < ds.timeframes@.len(),
        i != j,
    ensures
        !timeframes_overlap(ds.timeframes@[i], ds.timeframes@[j]),
{
    if i < j {
        assert(!timeframes_overlap(ds.timeframes@[i], ds.timeframes@[j]));
    } else {
        assert(!timeframes_overlap(ds.timeframes@[j], ds.timeframes@[i]));
    }
}

/// In an accepted dataset with translations there is feed metadata. With
/// the multilingual feed language, every language translates the same
/// records: a record reference translated in one language is translated in
/// every language present. Otherwise, when several languages appear, the
/// feed language is among them.
pub proof fn lemma_feed_languages(ds: &Dataset, flag: bool)
    requires
        ds.accepted(flag),
    ensures
        ds.translations@.len() > 0 ==> ds.feed_info is Some,
        ds.feed_info is Some && ds.feed_info.unwrap().feed_lang@ == multilingual() ==> forall|i: int, j: int|
            0 <= i < ds.translations@.len() && 0 <= j < ds.translations@.len() ==> ds.translated_in(
                (#[trigger] ds.translations@[j]).language@,
                opt_view((#[trigger] ds.translations@[i]).record_id),
                opt_view(ds.translations@[i].record_sub_id),
            ),
        ds.feed_info is Some && ds.feed_info.unwrap().feed_lang@ != multilingual()
            && ds.languages_differ() ==> ds.has_language(ds.feed_info.unwrap().feed_lang@),
{
}

} // verus!
