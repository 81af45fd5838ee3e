//! Serving the tools.

pub mod transport;
