//! Verified core of a subscription aggregator: request checks, session
//! lifetime rules, source merging and the display mappings of the admin UI.
use vstd::prelude::*;

pub mod server;
pub mod text;
pub mod web;
pub mod web_core;

verus! {

} // verus!
