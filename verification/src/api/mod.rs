//! What requests ask for, and what they are answered.

pub mod health;
pub mod paging;
pub mod resources;
pub mod settings;
pub mod shares;
pub mod tasks;
