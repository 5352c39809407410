//! The record of a stored image.

use vstd::prelude::*;
use crate::object_id::ObjectId;

verus! {

#[verifier::external_type_specification]
#[verifier::external_body]
pub struct ExUtc(chrono::Utc);

/// A stored image: who owns it, where its bytes are, and its time stamps.
pub struct Image {
    pub id: Option<ObjectId>,
    pub user_id: ObjectId,
    pub link_id: String,
    pub timestamp: chrono::Utc,
    pub latest_accessed: chrono::Utc,
}

} // verus!
