//! What is done with resources.

pub mod organizer;
pub mod share_limiter;
pub mod title;
pub mod tmdb;
