//! Verified core of an image-hosting web service: identifiers, JSON reply
//! bodies, token claims, user models and the decisions behind each route.

pub mod object_id;
pub mod json;
pub mod reply;
pub mod middleware;
pub mod models;
pub mod routes;
