//! Logic of the admin UI that does not touch the browser: API shapes, the
//! request error type and the display mappings.
pub mod dto;
pub mod error;
pub mod fmt;
