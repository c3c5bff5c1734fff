//! What is kept of finished runs.

pub mod history;
