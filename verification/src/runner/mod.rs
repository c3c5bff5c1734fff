//! Running a test: sessions, scheduling decisions and metrics.

pub mod executor;
pub mod metrics;
pub mod metrics_json;
pub mod metrics_laws;
pub mod pattern;
pub mod session;
