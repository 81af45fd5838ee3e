//! Friday: remote diagnosis of JVM services, on virtual machines over SSH and in Kubernetes pods
//! behind them.
//!
//! The library decides and the application around it acts. What has to wait for the outside is a
//! value that says what it waits for and takes what came of it: the flows of [`flow`] for the
//! orchestrations, and the calls of [`tools::call`] for the tools. Everything else is a function
//! from values to values. Contracts speak of the contents of strings, vectors and JSON values.
//!
//! - [`exec`]: commands and files at hosts and in pods, and the pool of connections;
//! - [`provision`]: bringing arthas and a JDK to a target;
//! - [`arthas`]: attaching arthas to a JVM, connecting to it, and letting it go;
//! - [`tools`]: the tools that agents call, with what they answer;
//! - [`infra`] and [`mcp`]: logs, and the server of the tools;
//! - [`text`], [`json`] and [`ids`]: what the others are made of.

pub mod arthas;
pub mod exec;
pub mod flow;
pub mod ids;
pub mod infra;
pub mod json;
pub mod mcp;
pub mod provision;
pub mod text;
pub mod tools;
