//! Remote execution: command channels to hosts and into pods.

pub mod k8s;
pub mod pool;
pub mod shell;
pub mod ssh;
