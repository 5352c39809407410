//! The decisions behind each route.

pub mod file;
pub mod image;
pub mod user;
