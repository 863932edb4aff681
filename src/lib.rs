//! A verified model of a public-transit schedule feed and of the rules that a
//! consistent feed obeys: typed identifiers and values, one record type per
//! table with its row rules, a dataset container, and a validator that checks
//! the dataset as a whole.
use vstd::prelude::*;

pub mod agency;
pub mod booking_rule;
pub mod checks_core;
pub mod checks_feed;
pub mod checks_links;
pub mod copies;
pub mod calendar;
pub mod dataset;
pub mod error;
pub mod fares;
pub mod feed_info;
pub mod ids;
pub mod laws;
pub mod primary_keys;
pub mod queries;
pub mod route;
pub mod schemas;
pub mod shape;
pub mod station;
pub mod stop;
pub mod stop_time;
pub mod transfer;
pub mod translation;
pub mod trip;
pub mod validator;
pub mod values;

verus! {

} // verus!
