//! Attaching arthas to a JVM.

pub mod attach;
pub mod ip;
pub mod java;
pub mod pod;
pub mod session;
pub mod stop;
pub mod sweep;
pub mod temporary;
pub mod tunnel;
pub mod vm;
