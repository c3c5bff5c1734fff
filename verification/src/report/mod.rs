//! Reports: the terminal summary and the HTML pages.

pub mod charts;
pub mod data;
pub mod data_laws;
pub mod figures;
pub mod html;
pub mod i18n;
pub mod label_keys;
pub mod model_dashboard;
pub mod page_laws;
pub mod summary;
pub mod summary_laws;
