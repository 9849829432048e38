//! Verified core of an HTTP endpoint uptime monitor.
//!
//! Endpoints are registered together with a webhook address; a monitor
//! loop per endpoint periodically probes it, records the outcome, and
//! fires a webhook notification when a probe fails. The decision logic
//! of that loop, the probe classification, the supervisor that plans
//! which loops to start, and the listing renderer live here, verified;
//! the network and database calls around them are ordinary plumbing.

pub mod cycle;
pub mod date;
pub mod notify;
pub mod probe;
pub mod render;
pub mod store;
pub mod supervisor;
pub mod target;
