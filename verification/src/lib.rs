//! Load testing of LLM HTTP endpoints: request bodies, stream parsing,
//! datasets, sessions, run metrics, reports and run history.

pub mod binary64;
pub mod cli;
pub mod client;
pub mod commands;
pub mod compare;
pub mod compare_laws;
pub mod config;
pub mod config_io;
pub mod dataset;
pub mod error;
pub mod histogram;
pub mod ids;
pub mod json;
pub mod report;
pub mod runner;
pub mod shown;
pub mod storage;
pub mod tables;
pub mod text;
pub mod tui;
