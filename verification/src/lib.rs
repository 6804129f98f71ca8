//! Decision core of a developer-environment bootstrapper.
//!
//! The tool reconciles the local machine's service state (a database
//! engine, an application server, a build artifact) with a desired mode.
//! All observation and all side effects live outside this crate; what is
//! verified here is the reconciliation logic itself: given the observed
//! state as plain values, which corrective actions are issued, in which
//! order, and under which conditions.

pub mod compile;
pub mod deploy;
pub mod fsmodel;
pub mod lifecycle;
pub mod model;
pub mod orchestrate;
pub mod paths;
pub mod runner;
pub mod setup;
pub mod teardown;
pub mod timing;
