//! The tools that are offered to agents.

pub mod arthas;
pub mod call;
pub mod jfr;
pub mod k8s;
pub mod output;
pub mod processes;
