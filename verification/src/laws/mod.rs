//! What holds of the library as a whole: what its operations are for, told by how their results
//! relate to what they were given.

pub mod drive;
pub mod imports;
pub mod library;
pub mod links;
pub mod names;
pub mod operations;
pub mod reading;
pub mod records;
pub mod searching;
pub mod service;
pub mod settings;
pub mod sizes;
pub mod texts;
pub mod titles;
pub mod upkeep;
