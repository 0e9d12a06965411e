//! Services outside.

pub mod adapter_115;
pub mod folder_listing;
pub mod share_listing;
