//! A verified core for a single-resource website monitor: it fingerprints
//! fetched content, detects changes between successive successful fetches,
//! counts consecutive failures, and decides when the monitor must stop.

pub mod config;
pub mod digest;
pub mod monitor;
pub mod response;
pub mod tracker;

pub use config::CliArgs;
pub use config::Config;
pub use monitor::EyeOfArgos;
pub use monitor::Report;
pub use response::UrlResponse;
pub use tracker::FailureTracker;
