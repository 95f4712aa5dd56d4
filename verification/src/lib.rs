//! Message handling for a voice assistant that answers one spoken greeting
//! with the date, the day's forecast and the latest headlines.
//!
//! The crate holds the decisions and the wording. Whatever has to reach a
//! provider, the disk or the event store is done by the caller, who hands the
//! outcome back as a plain value.

pub mod models;
pub mod routes;
pub mod services;
pub mod utils;
