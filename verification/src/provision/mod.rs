//! Bringing tools to a target.

pub mod arthas;
pub mod k8s;
pub mod package;
