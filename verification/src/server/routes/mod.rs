//! The request shapes and the decisions of the HTTP routes.
pub mod auth;
pub mod clash_config;
pub mod combineds;
pub mod config;
pub mod preview;
pub mod sources;
pub mod stats;
pub mod subscribe;

use vstd::prelude::*;

use crate::text::{contains_seq, contains_str};

verus! {

/// A database error message that reports a violated UNIQUE constraint.
pub open spec fn unique_violation_message(message: Option<Seq<char>>) -> bool {
    match message {
        Some(m) => contains_seq(m, "UNIQUE"@),
        None => false,
    }
}

/// The database refused a write because a UNIQUE constraint failed
/// (`message` is the database's own message, where the error came from it).
pub fn is_unique_violation(message: Option<&str>) -> (r: bool)
    ensures
        r == unique_violation_message(
            match message {
                Some(m) => Some(m@),
                None => None,
            },
        ),
{
    match message {
        Some(m) => contains_str(m, "UNIQUE"),
        None => false,
    }
}

} // verus!
