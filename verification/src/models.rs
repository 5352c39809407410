//! Stored records.

pub mod image;
pub mod user;
