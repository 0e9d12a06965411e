//! Verified core of a media import pipeline.

pub mod adapters;
pub mod api;
pub mod call;
pub mod chance;
pub mod clock;
pub mod config;
pub mod db;
pub mod error;
pub mod json;
pub mod laws;
pub mod pattern;
pub mod services;
pub mod share_link;
pub mod startup;
pub mod state;
pub mod text;
pub mod text_map;
pub mod utils;
pub mod workers;
