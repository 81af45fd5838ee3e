//! What the program needs besides its tools.

pub mod logging;
