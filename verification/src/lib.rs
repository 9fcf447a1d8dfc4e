//! Startup configuration layer of a container monitor: validation and
//! normalization of invocation parameters, and resolution of log driver
//! specifications into a set of log sinks.

pub mod cli;
pub mod ctr_logging;
pub mod errors;
pub mod strutil;
