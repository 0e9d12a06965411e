//! Work in the background.

pub mod import_plan;
pub mod import_worker;
pub mod schedule;
pub mod walk;
