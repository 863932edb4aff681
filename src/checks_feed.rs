//! Dataset checks on translations and feed metadata, and the validator that
//! runs every check in order.
use vstd::prelude::*;
use vstd::string::*;

use crate::dataset::{contains_key, has_key, Dataset};
use crate::error::{carries_payload, dataset_error, dataset_outcome, one, reports_dataset_fault, DatasetFault, Error};
use crate::schemas::Schema;
use crate::translation::{TableName, Translation};
use crate::values::{
    date_of_text, decimal_u32_of_text, parse_decimal_u32, service_time_of_text, GtfsDate,
    NaiveServiceTime,
};

verus! {

/// The text of an optional string.
pub open spec fn opt_view(o: Option<String>) -> Option<Seq<char>> {
    match o {
        Some(s) => Some(s@),
        None => None,
    }
}

/// Both optional strings are absent, or both present with the same text.
pub fn same_opt_text(a: &Option<String>, b: &Option<String>) -> (r: bool)
    ensures
        r == (opt_view(*a) == opt_view(*b)),
{
    match (a, b) {
        (Some(x), Some(y)) => *x == *y,
        (None, None) => true,
        _ => false,
    }
}

/// The sentinel language of a feed whose text is in several languages.
pub open spec fn multilingual() -> Seq<char> {
    "mul"@
}

impl Dataset {
    /// Some stop time has the stop sequence `v`.
    pub open spec fn has_stop_sequence(&self, v: int) -> bool {
        exists|i: int| 0 <= i < self.stop_times@.len() && (#[trigger] self.stop_times@[i]).stop_sequence == v
    }

    /// Some calendar date falls on `d`.
    pub open spec fn has_calendar_date(&self, d: GtfsDate) -> bool {
        exists|i: int| 0 <= i < self.calendar_dates@.len() && (#[trigger] self.calendar_dates@[i]).date == d
    }

    /// Some fare rule names the route `k`.
    pub open spec fn has_fare_rule_route(&self, k: Seq<char>) -> bool {
        exists|i: int|
            0 <= i < self.fare_rules@.len() && (#[trigger] self.fare_rules@[i]).route_id is Some
                && self.fare_rules@[i].route_id.unwrap().0@ == k
    }

    /// Some frequency starts at `v` seconds.
    pub open spec fn has_frequency_start(&self, v: int) -> bool {
        exists|i: int|
            0 <= i < self.frequencies@.len() && (#[trigger] self.frequencies@[i]).start_time.secs == v
    }

    /// Some transfer leads to the stop `k`.
    pub open spec fn has_transfer_to(&self, k: Seq<char>) -> bool {
        exists|i: int|
            0 <= i < self.transfers@.len() && (#[trigger] self.transfers@[i]).to_stop_id is Some
                && self.transfers@[i].to_stop_id.unwrap().0@ == k
    }

    /// The record that a translation refers to exists, a sub-reference is
    /// given only for tables keyed by two fields, a feed-info translation
    /// refers to no record, and a field value is not given together with a
    /// record reference.
    pub open spec fn translation_ok(&self, t: Translation) -> bool {
        let rid = opt_view(t.record_id);
        let sub = opt_view(t.record_sub_id);
        let found = |keyed: bool| rid is Some ==> keyed;
        let refs = match t.table_name {
            TableName::Agency => found(has_key(self.agencies@, rid.unwrap())) && sub is None,
            TableName::Stops => found(has_key(self.stops@, rid.unwrap())) && sub is None,
            TableName::Routes => found(has_key(self.routes@, rid.unwrap())) && sub is None,
            TableName::Trips => found(has_key(self.trips@, rid.unwrap())) && sub is None,
            TableName::Pathways => found(has_key(self.pathways@, rid.unwrap())) && sub is None,
            TableName::Levels => found(has_key(self.levels@, rid.unwrap())) && sub is None,
            TableName::Attributions => found(has_key(self.attributions@, rid.unwrap())) && sub is None,
            TableName::Calendar => found(has_key(self.calendar@, rid.unwrap())) && sub is None,
            TableName::FareAttributes => found(has_key(self.fare_attributes@, rid.unwrap()))
                && sub is None,
            TableName::Shapes => found(has_key(self.shapes@, rid.unwrap())) && sub is None,
            TableName::StopTimes => found(has_key(self.stop_times@, rid.unwrap())) && (sub is Some
                ==> match decimal_u32_of_text(sub.unwrap()) {
                Some(v) => self.has_stop_sequence(v),
                None => false,
            }),
            TableName::CalendarDates => found(has_key(self.calendar_dates@, rid.unwrap())) && (sub
                is Some ==> match date_of_text(sub.unwrap()) {
                Some(d) => self.has_calendar_date(d),
                None => false,
            }),
            TableName::FareRules => found(has_key(self.fare_rules@, rid.unwrap())) && (sub is Some
                ==> self.has_fare_rule_route(sub.unwrap())),
            TableName::Frequencies => found(has_key(self.frequencies@, rid.unwrap())) && (sub is Some
                ==> match service_time_of_text(sub.unwrap()) {
                Some(v) => self.has_frequency_start(v),
                None => false,
            }),
            TableName::Transfers => found(has_key(self.transfers@, rid.unwrap())) && (sub is Some
                ==> self.has_transfer_to(sub.unwrap())),
            TableName::FeedInfo => rid is None && sub is None && t.field_value is None,
        };
        refs && !(t.field_value is Some && (rid is Some || sub is Some))
    }

    /// Every translation obeys its rules.
    pub open spec fn translations_ok(&self) -> bool {
        forall|i: int|
            0 <= i < self.translations@.len() ==> self.translation_ok(#[trigger] self.translations@[i])
    }

    fn stop_sequence_exists(&self, v: u32) -> (r: bool)
        ensures
            r == self.has_stop_sequence(v as int),
    {
        let mut i: usize = 0;
        while i < self.stop_times.len()
            invariant
                0 <= i <= self.stop_times@.len(),
                forall|k: int| 0 <= k < i ==> (#[trigger] self.stop_times@[k]).stop_sequence != v,
            decreases self.stop_times@.len() - i,
        {
            if self.stop_times[i].stop_sequence == v {
                return true;
            }
            i += 1;
        }
        false
    }

    fn calendar_date_exists(&self, d: &GtfsDate) -> (r: bool)
        ensures
            r == self.has_calendar_date(*d),
    {
        let mut i: usize = 0;
        while i < self.calendar_dates.len()
            invariant
                0 <= i <= self.calendar_dates@.len(),
                forall|k: int| 0 <= k < i ==> (#[trigger] self.calendar_dates@[k]).date != *d,
            decreases self.calendar_dates@.len() - i,
        {
            if self.calendar_dates[i].date == *d {
                return true;
            }
            i += 1;
        }
        false
    }

    fn fare_rule_route_exists(&self, k: &String) -> (r: bool)
        ensures
            r == self.has_fare_rule_route(k@),
    {
        let mut i: usize = 0;
        while i < self.fare_rules.len()
            invariant
                0 <= i <= self.fare_rules@.len(),
                forall|j: int|
                    0 <= j < i ==> !((#[trigger] self.fare_rules@[j]).route_id is Some
                        && self.fare_rules@[j].route_id.unwrap().0@ == k@),
            decreases self.fare_rules@.len() - i,
        {
            if let Some(rid) = &self.fare_rules[i].route_id {
                if rid.0 == *k {
                    return true;
                }
            }
            i += 1;
        }
        false
    }

    fn frequency_start_exists(&self, v: u32) -> (r: bool)
        ensures
            r == self.has_frequency_start(v as int),
    {
        let mut i: usize = 0;
        while i < self.frequencies.len()
            invariant
                0 <= i <= self.frequencies@.len(),
                forall|k: int| 0 <= k < i ==> (#[trigger] self.frequencies@[k]).start_time.secs != v,
            decreases self.frequencies@.len() - i,
        {
            if self.frequencies[i].start_time.secs == v {
                return true;
            }
            i += 1;
        }
        false
    }

    fn transfer_to_exists(&self, k: &String) -> (r: bool)
        ensures
            r == self.has_transfer_to(k@),
    {
        let mut i: usize = 0;
        while i < self.transfers.len()
            invariant
                0 <= i <= self.transfers@.len(),
                forall|j: int|
                    0 <= j < i ==> !((#[trigger] self.transfers@[j]).to_stop_id is Some
                        && self.transfers@[j].to_stop_id.unwrap().0@ == k@),
            decreases self.transfers@.len() - i,
        {
            if let Some(sid) = &self.transfers[i].to_stop_id {
                if sid.0 == *k {
                    return true;
                }
            }
            i += 1;
        }
        false
    }

    /// The record that `rid` names exists in the table of `t`.
    pub open spec fn record_exists_spec(&self, t: TableName, rid: Seq<char>) -> bool {
        match t {
            TableName::Agency => has_key(self.agencies@, rid),
            TableName::Stops => has_key(self.stops@, rid),
            TableName::Routes => has_key(self.routes@, rid),
            TableName::Trips => has_key(self.trips@, rid),
            TableName::Pathways => has_key(self.pathways@, rid),
            TableName::Levels => has_key(self.levels@, rid),
            TableName::Attributions => has_key(self.attributions@, rid),
            TableName::Calendar => has_key(self.calendar@, rid),
            TableName::FareAttributes => has_key(self.fare_attributes@, rid),
            TableName::Shapes => has_key(self.shapes@, rid),
            TableName::StopTimes => has_key(self.stop_times@, rid),
            TableName::CalendarDates => has_key(self.calendar_dates@, rid),
            TableName::FareRules => has_key(self.fare_rules@, rid),
            TableName::Frequencies => has_key(self.frequencies@, rid),
            TableName::Transfers => has_key(self.transfers@, rid),
            TableName::FeedInfo => true,
        }
    }

    /// The record that `rid` names exists in the table of `t`.
    fn record_exists(&self, t: TableName, rid: &String) -> (r: bool)
        ensures
            t != TableName::FeedInfo ==> r == self.record_exists_spec(t, rid@),
    {
        match t {
            TableName::Agency => contains_key(&self.agencies, rid),
            TableName::Stops => contains_key(&self.stops, rid),
            TableName::Routes => contains_key(&self.routes, rid),
            TableName::Trips => contains_key(&self.trips, rid),
            TableName::Pathways => contains_key(&self.pathways, rid),
            TableName::Levels => contains_key(&self.levels, rid),
            TableName::Attributions => contains_key(&self.attributions, rid),
            TableName::Calendar => contains_key(&self.calendar, rid),
            TableName::FareAttributes => contains_key(&self.fare_attributes, rid),
            TableName::Shapes => contains_key(&self.shapes, rid),
            TableName::StopTimes => contains_key(&self.stop_times, rid),
            TableName::CalendarDates => contains_key(&self.calendar_dates, rid),
            TableName::FareRules => contains_key(&self.fare_rules, rid),
            TableName::Frequencies => contains_key(&self.frequencies, rid),
            TableName::Transfers => contains_key(&self.transfers, rid),
            TableName::FeedInfo => true,
        }
    }

    /// A table keyed by two fields, whose translations name a record by a
    /// reference and a sub-reference.
    pub open spec fn keyed_twice(t: TableName) -> bool {
        t == TableName::StopTimes || t == TableName::CalendarDates || t == TableName::FareRules || t
            == TableName::Frequencies || t == TableName::Transfers
    }

    /// The record that the sub-reference `sub` names exists, for the tables
    /// keyed by two fields.
    pub open spec fn sub_record_exists_spec(&self, t: TableName, sub: Seq<char>) -> bool {
        match t {
            TableName::StopTimes => match decimal_u32_of_text(sub) {
                Some(v) => self.has_stop_sequence(v),
                None => false,
            },
            TableName::CalendarDates => match date_of_text(sub) {
                Some(d) => self.has_calendar_date(d),
                None => false,
            },
            TableName::FareRules => self.has_fare_rule_route(sub),
            TableName::Frequencies => match service_time_of_text(sub) {
                Some(v) => self.has_frequency_start(v),
                None => false,
            },
            TableName::Transfers => self.has_transfer_to(sub),
            _ => false,
        }
    }

    /// The first rule that one translation breaks.
    pub open spec fn translation_record_fault(&self, t: Translation) -> Option<(DatasetFault, Seq<char>)> {
        let rid = opt_view(t.record_id);
        let sub = opt_view(t.record_sub_id);
        if t.table_name == TableName::FeedInfo {
            if rid is Some || sub is Some || t.field_value is Some {
                Some((DatasetFault::InconsistentValue, "record_id, record_sub_id, field_value"@))
            } else {
                None
            }
        } else if rid is Some && !self.record_exists_spec(t.table_name, rid.unwrap()) {
            Some((DatasetFault::ForeignKeyNotFound, "record_id"@))
        } else if sub is Some && !Self::keyed_twice(t.table_name) {
            Some((DatasetFault::InconsistentValue, "record_sub_id"@))
        } else if sub is Some && !self.sub_record_exists_spec(t.table_name, sub.unwrap()) {
            Some((DatasetFault::ForeignKeyNotFound, "record_sub_id"@))
        } else if t.field_value is Some && (rid is Some || sub is Some) {
            Some((DatasetFault::InconsistentValue, "field_value, record_id, record_sub_id"@))
        } else {
            None
        }
    }

    /// The value and record that the first rule broken by one translation is
    /// reported with.
    pub open spec fn translation_record_payload(&self, t: Translation) -> Option<(Seq<char>, Seq<Schema>)> {
        let rid = opt_view(t.record_id);
        let sub = opt_view(t.record_sub_id);
        let recs = seq![Schema::Translation(t)];
        if t.table_name == TableName::FeedInfo {
            if rid is Some || sub is Some || t.field_value is Some {
                Some((Seq::empty(), recs))
            } else {
                None
            }
        } else if rid is Some && !self.record_exists_spec(t.table_name, rid.unwrap()) {
            Some((rid.unwrap(), recs))
        } else if sub is Some && !Self::keyed_twice(t.table_name) {
            Some((sub.unwrap(), recs))
        } else if sub is Some && !self.sub_record_exists_spec(t.table_name, sub.unwrap()) {
            Some((sub.unwrap(), recs))
        } else if t.field_value is Some && (rid is Some || sub is Some) {
            Some((Seq::empty(), recs))
        } else {
            None
        }
    }

    /// The payload of the first translation at or after `i` that breaks a
    /// rule.
    pub open spec fn translation_payload_from(&self, i: int) -> Option<(Seq<char>, Seq<Schema>)>
        decreases self.translations@.len() - i,
    {
        if i < 0 || i >= self.translations@.len() {
            None
        } else if self.translation_record_fault(self.translations@[i]) is Some {
            self.translation_record_payload(self.translations@[i])
        } else {
            self.translation_payload_from(i + 1)
        }
    }

    /// The fault of the first translation at or after `i` that breaks a rule.
    pub open spec fn translation_fault_from(&self, i: int) -> Option<(DatasetFault, Seq<char>)>
        decreases self.translations@.len() - i,
    {
        if i < 0 || i >= self.translations@.len() {
            None
        } else if self.translation_record_fault(self.translations@[i]) is Some {
            self.translation_record_fault(self.translations@[i])
        } else {
            self.translation_fault_from(i + 1)
        }
    }

    /// The record that the sub-reference `sub` names exists, for the tables
    /// keyed by two fields.
    fn sub_record_exists(&self, t: TableName, sub: &String) -> (r: bool)
        ensures
            t == TableName::StopTimes ==> r == match decimal_u32_of_text(sub@) {
                Some(v) => self.has_stop_sequence(v),
                None => false,
            },
            t == TableName::CalendarDates ==> r == match date_of_text(sub@) {
                Some(d) => self.has_calendar_date(d),
                None => false,
            },
            t == TableName::FareRules ==> r == self.has_fare_rule_route(sub@),
            t == TableName::Frequencies ==> r == match service_time_of_text(sub@) {
                Some(v) => self.has_frequency_start(v),
                None => false,
            },
            t == TableName::Transfers ==> r == self.has_transfer_to(sub@),
    {
        match t {
            TableName::StopTimes => match parse_decimal_u32(sub.as_str()) {
                Some(v) => self.stop_sequence_exists(v),
                None => false,
            },
            TableName::CalendarDates => match GtfsDate::parse(sub.as_str()) {
                Some(d) => self.calendar_date_exists(&d),
                None => false,
            },
            TableName::FareRules => self.fare_rule_route_exists(sub),
            TableName::Frequencies => match NaiveServiceTime::parse(sub.as_str()) {
                Some(v) => self.frequency_start_exists(v.secs),
                None => false,
            },
            TableName::Transfers => self.transfer_to_exists(sub),
            _ => false,
        }
    }

    /// Checks one translation.
    pub fn check_translation(&self, t: &Translation) -> (r: Result<(), Error>)
        ensures
            dataset_outcome(r, self.translation_ok(*t)),
            reports_dataset_fault(r, self.translation_record_fault(*t)),
            carries_payload(r, self.translation_record_payload(*t)),
    {
        let table = t.table_name;
        if table == TableName::FeedInfo {
            if t.record_id.is_some() || t.record_sub_id.is_some() || t.field_value.is_some() {
                return Err(
                    dataset_error(
                        DatasetFault::InconsistentValue,
                        "record_id, record_sub_id, field_value",
                        String::new(),
                        "record_id, record_sub_id, and field_value are not allowed for feed_info translations",
                        one(Schema::Translation(t.copy())),
                    ),
                );
            }
            return Ok(());
        }
        if let Some(rid) = &t.record_id {
            if !self.record_exists(table, rid) {
                return Err(
                    dataset_error(
                        DatasetFault::ForeignKeyNotFound,
                        "record_id",
                        rid.clone(),
                        "the table named by table_name",
                        one(Schema::Translation(t.copy())),
                    ),
                );
            }
        }
        if let Some(sub) = &t.record_sub_id {
            let keyed_twice = table == TableName::StopTimes || table == TableName::CalendarDates
                || table == TableName::FareRules || table == TableName::Frequencies || table
                == TableName::Transfers;
            if !keyed_twice {
                return Err(
                    dataset_error(
                        DatasetFault::InconsistentValue,
                        "record_sub_id",
                        sub.clone(),
                        "record_sub_id is not allowed for translations of this table",
                        one(Schema::Translation(t.copy())),
                    ),
                );
            }
            if !self.sub_record_exists(table, sub) {
                return Err(
                    dataset_error(
                        DatasetFault::ForeignKeyNotFound,
                        "record_sub_id",
                        sub.clone(),
                        "the table named by table_name",
                        one(Schema::Translation(t.copy())),
                    ),
                );
            }
        }
        if t.field_value.is_some() && (t.record_id.is_some() || t.record_sub_id.is_some()) {
            return Err(
                dataset_error(
                    DatasetFault::InconsistentValue,
                    "field_value, record_id, record_sub_id",
                    String::new(),
                    "field_value cannot be used together with record_id or record_sub_id",
                    one(Schema::Translation(t.copy())),
                ),
            );
        }
        Ok(())
    }

    /// Checks the translations.
    pub fn check_translations(&self) -> (r: Result<(), Error>)
        ensures
            dataset_outcome(r, self.translations_ok()),
            reports_dataset_fault(r, self.translation_fault_from(0)),
            carries_payload(r, self.translation_payload_from(0)),
    {
        let mut i: usize = 0;
        while i < self.translations.len()
            invariant
                0 <= i <= self.translations@.len(),
                forall|k: int| 0 <= k < i ==> self.translation_ok(#[trigger] self.translations@[k]),
                forall|k: int|
                    0 <= k < i ==> (#[trigger] self.translation_record_fault(self.translations@[k])) is None,
                self.translation_fault_from(0) == self.translation_fault_from(i as int),
                self.translation_payload_from(0) == self.translation_payload_from(i as int),
            decreases self.translations@.len() - i,
        {
            let r = self.check_translation(&self.translations[i]);
            if r.is_err() {
                return r;
            }
            i += 1;
        }
        Ok(())
    }
}

impl Dataset {
    /// Some translation into the language `lang` has the given record
    /// reference and sub-reference.
    pub open spec fn translated_in(
        &self,
        lang: Seq<char>,
        rid: Option<Seq<char>>,
        sub: Option<Seq<char>>,
    ) -> bool {
        exists|k: int|
            0 <= k < self.translations@.len() && (#[trigger] self.translations@[k]).language@ == lang
                && opt_view(self.translations@[k].record_id) == rid && opt_view(
                self.translations@[k].record_sub_id,
            ) == sub
    }

    /// Every language of the translations translates the same set of records.
    pub open spec fn same_records_per_language(&self) -> bool {
        forall|i: int, j: int|
            0 <= i < self.translations@.len() && 0 <= j < self.translations@.len() ==> self.translated_in(
                (#[trigger] self.translations@[j]).language@,
                opt_view((#[trigger] self.translations@[i]).record_id),
                opt_view(self.translations@[i].record_sub_id),
            )
    }

    /// The translations use more than one language.
    pub open spec fn languages_differ(&self) -> bool {
        exists|i: int, j: int|
            0 <= i < self.translations@.len() && 0 <= j < self.translations@.len() && (
            #[trigger] self.translations@[i]).language@ != (#[trigger] self.translations@[j]).language@
    }

    /// Some translation is into the language `lang`.
    pub open spec fn has_language(&self, lang: Seq<char>) -> bool {
        exists|i: int|
            0 <= i < self.translations@.len() && (#[trigger] self.translations@[i]).language@ == lang
    }

    /// Feed metadata is present when there are translations; its dates are
    /// in order; with the multilingual language every language translates
    /// the same records, and otherwise several languages include the feed's.
    pub open spec fn feed_info_ok(&self) -> bool {
        match self.feed_info {
            Some(fi) => {
                &&& (fi.feed_start_date is Some && fi.feed_end_date is Some) ==> fi.feed_start_date.unwrap().spec_le(
                    &fi.feed_end_date.unwrap(),
                )
                &&& fi.feed_lang@ == multilingual() ==> self.same_records_per_language()
                &&& fi.feed_lang@ != multilingual() ==> !(self.languages_differ() && !self.has_language(
                    fi.feed_lang@,
                ))
            },
            None => self.translations@.len() == 0,
        }
    }

    /// The first rule of the feed metadata that the dataset breaks.
    pub open spec fn feed_info_fault(&self) -> Option<(DatasetFault, Seq<char>)> {
        match self.feed_info {
            None => if self.translations@.len() > 0 {
                Some((DatasetFault::MissingValue, "feed_info.txt"@))
            } else {
                None
            },
            Some(fi) => if fi.feed_start_date is Some && fi.feed_end_date is Some
                && !fi.feed_start_date.unwrap().spec_le(&fi.feed_end_date.unwrap()) {
                Some((DatasetFault::InconsistentValue, "feed_start_date, feed_end_date"@))
            } else if fi.feed_lang@ == multilingual() && !self.same_records_per_language() {
                Some((DatasetFault::InconsistentValue, "translations"@))
            } else if fi.feed_lang@ != multilingual() && self.languages_differ() && !self.has_language(
                fi.feed_lang@,
            ) {
                Some((DatasetFault::InconsistentValue, "feed_lang"@))
            } else {
                None
            },
        }
    }

    /// The value and record that the first broken rule of the feed metadata
    /// is reported with.
    pub open spec fn feed_info_payload(&self) -> Option<(Seq<char>, Seq<Schema>)> {
        match self.feed_info {
            None => if self.translations@.len() > 0 {
                Some((Seq::empty(), Seq::empty()))
            } else {
                None
            },
            Some(fi) => if fi.feed_start_date is Some && fi.feed_end_date is Some
                && !fi.feed_start_date.unwrap().spec_le(&fi.feed_end_date.unwrap()) {
                Some((Seq::empty(), seq![Schema::FeedInfo(fi)]))
            } else if fi.feed_lang@ == multilingual() && !self.same_records_per_language() {
                Some(
                    (
                        self.mismatch_label(self.language_mismatch_from(0, 0).unwrap()),
                        seq![Schema::FeedInfo(fi)],
                    ),
                )
            } else if fi.feed_lang@ != multilingual() && self.languages_differ() && !self.has_language(
                fi.feed_lang@,
            ) {
                Some((fi.feed_lang@, seq![Schema::FeedInfo(fi)]))
            } else {
                None
            },
        }
    }

    fn translated_in_exec(&self, lang: &String, rid: &Option<String>, sub: &Option<String>) -> (r: bool)
        ensures
            r == self.translated_in(lang@, opt_view(*rid), opt_view(*sub)),
    {
        let mut k: usize = 0;
        while k < self.translations.len()
            invariant
                0 <= k <= self.translations@.len(),
                forall|x: int|
                    0 <= x < k ==> !((#[trigger] self.translations@[x]).language@ == lang@ && opt_view(
                        self.translations@[x].record_id,
                    ) == opt_view(*rid) && opt_view(self.translations@[x].record_sub_id) == opt_view(
                        *sub,
                    )),
            decreases self.translations@.len() - k,
        {
            let t = &self.translations[k];
            if t.language == *lang && same_opt_text(&t.record_id, rid) && same_opt_text(
                &t.record_sub_id,
                sub,
            ) {
                return true;
            }
            k += 1;
        }
        false
    }

    /// The first pair of translations `(a, b)`, in the order of the loops
    /// below, such that the record that `a` translates has no translation
    /// into the language of `b`; pairs taken from `(a, b)` on.
    pub open spec fn language_mismatch_from(&self, a: int, b: int) -> Option<(int, int)>
        decreases self.translations@.len() - a, self.translations@.len() - b,
    {
        let n = self.translations@.len();
        if a < 0 || a >= n {
            None
        } else if b < 0 || b >= n {
            self.language_mismatch_from(a + 1, 0)
        } else if !self.translated_in(
            self.translations@[b].language@,
            opt_view(self.translations@[a].record_id),
            opt_view(self.translations@[a].record_sub_id),
        ) {
            Some((a, b))
        } else {
            self.language_mismatch_from(a, b + 1)
        }
    }

    /// The two languages of a mismatching pair, as `fr and de`.
    pub open spec fn mismatch_label(&self, p: (int, int)) -> Seq<char> {
        self.translations@[p.0].language@ + " and "@ + self.translations@[p.1].language@
    }

    /// The first pair of translations whose languages translate different
    /// records, if any.
    pub fn first_language_mismatch(&self) -> (r: Option<(usize, usize)>)
        ensures
            r is None <==> self.same_records_per_language(),
            match r {
                Some((a, b)) => self.language_mismatch_from(0, 0) == Some((a as int, b as int)) && a
                    < self.translations@.len() && b < self.translations@.len(),
                None => self.language_mismatch_from(0, 0) is None,
            },
    {
        let n = self.translations.len();
        let mut i: usize = 0;
        while i < n
            invariant
                n == self.translations@.len(),
                0 <= i <= n,
                self.language_mismatch_from(0, 0) == self.language_mismatch_from(i as int, 0),
                forall|x: int, y: int|
                    0 <= x < i && 0 <= y < n ==> self.translated_in(
                        (#[trigger] self.translations@[y]).language@,
                        opt_view((#[trigger] self.translations@[x]).record_id),
                        opt_view(self.translations@[x].record_sub_id),
                    ),
            decreases n - i,
        {
            let mut j: usize = 0;
            while j < n
                invariant
                    n == self.translations@.len(),
                    0 <= i < n,
                    0 <= j <= n,
                    self.language_mismatch_from(0, 0) == self.language_mismatch_from(i as int, j as int),
                    forall|x: int, y: int|
                        0 <= x < i && 0 <= y < n ==> self.translated_in(
                            (#[trigger] self.translations@[y]).language@,
                            opt_view((#[trigger] self.translations@[x]).record_id),
                            opt_view(self.translations@[x].record_sub_id),
                        ),
                    forall|y: int|
                        0 <= y < j ==> self.translated_in(
                            (#[trigger] self.translations@[y]).language@,
                            opt_view(self.translations@[i as int].record_id),
                            opt_view(self.translations@[i as int].record_sub_id),
                        ),
                decreases n - j,
            {
                let ti = &self.translations[i];
                if !self.translated_in_exec(&self.translations[j].language, &ti.record_id, &ti.record_sub_id) {
                    assert(!self.translated_in(
                        self.translations@[j as int].language@,
                        opt_view(self.translations@[i as int].record_id),
                        opt_view(self.translations@[i as int].record_sub_id),
                    ));
                    return Some((i, j));
                }
                j += 1;
            }
            i += 1;
        }
        None
    }

    /// Whether the translations use more than one language.
    pub fn several_languages(&self) -> (r: bool)
        ensures
            r == self.languages_differ(),
    {
        let n = self.translations.len();
        if n == 0 {
            return false;
        }
        let mut i: usize = 1;
        while i < n
            invariant
                n == self.translations@.len(),
                1 <= i <= n,
                forall|x: int| 0 <= x < i ==> (#[trigger] self.translations@[x]).language@ == self.translations@[0].language@,
            decreases n - i,
        {
            if !(self.translations[i].language == self.translations[0].language) {
                assert(self.translations@[i as int].language@ != self.translations@[0].language@);
                return true;
            }
            i += 1;
        }
        proof {
            assert forall|x: int, y: int|
                0 <= x < n && 0 <= y < n implies (#[trigger] self.translations@[x]).language@ == (
                #[trigger] self.translations@[y]).language@ by {}
        }
        false
    }

    /// Whether some translation is into the language `lang`.
    pub fn language_present(&self, lang: &String) -> (r: bool)
        ensures
            r == self.has_language(lang@),
    {
        let mut i: usize = 0;
        while i < self.translations.len()
            invariant
                0 <= i <= self.translations@.len(),
                forall|x: int| 0 <= x < i ==> (#[trigger] self.translations@[x]).language@ != lang@,
            decreases self.translations@.len() - i,
        {
            if self.translations[i].language == *lang {
                return true;
            }
            i += 1;
        }
        false
    }

    /// Checks the feed metadata against the translations.
    pub fn check_feed_info(&self) -> (r: Result<(), Error>)
        ensures
            dataset_outcome(r, self.feed_info_ok()),
            reports_dataset_fault(r, self.feed_info_fault()),
            carries_payload(r, self.feed_info_payload()),
    {
        match &self.feed_info {
            None => {
                if self.translations.len() > 0 {
                    return Err(
                        dataset_error(
                            DatasetFault::MissingValue,
                            "feed_info.txt",
                            String::new(),
                            "feed_info.txt is required when translations.txt is provided",
                            Vec::new(),
                        ),
                    );
                }
                Ok(())
            },
            Some(fi) => {
                if let (Some(start), Some(end)) = (&fi.feed_start_date, &fi.feed_end_date) {
                    if !start.le(end) {
                        return Err(
                            dataset_error(
                                DatasetFault::InconsistentValue,
                                "feed_start_date, feed_end_date",
                                String::new(),
                                "feed_start_date is after feed_end_date",
                                one(Schema::FeedInfo(fi.copy())),
                            ),
                        );
                    }
                }
                let mul = String::from_str("mul");
                proof {
                    reveal_strlit("mul");
                }
                if fi.feed_lang == mul {
                    if let Some((a, b)) = self.first_language_mismatch() {
                        let mut langs = self.translations[a].language.clone();
                        langs.append(" and ");
                        langs.append(self.translations[b].language.as_str());
                        proof {
                            reveal_strlit(" and ");
                        }
                        return Err(
                            dataset_error(
                                DatasetFault::InconsistentValue,
                                "translations",
                                langs,
                                "when feed_lang is set to \"mul\" each translation should be translated to all languages found in translations.txt",
                                one(Schema::FeedInfo(fi.copy())),
                            ),
                        );
                    }
                } else if self.several_languages() && !self.language_present(&fi.feed_lang) {
                    return Err(
                        dataset_error(
                            DatasetFault::InconsistentValue,
                            "feed_lang",
                            fi.feed_lang.clone(),
                            "feed_lang is inconsistent with the languages found in translations.txt",
                            one(Schema::FeedInfo(fi.copy())),
                        ),
                    );
                }
                Ok(())
            },
        }
    }
}

} // verus!
