//! Tools for JFR recordings: making them, following them and analysing them.

pub mod analysis;
pub mod mapping;
pub mod record;
pub mod recordings;
pub mod status;
pub mod wait;
