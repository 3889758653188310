//! The custom resources that the operator manages, and the remote API's objects.

use vstd::prelude::*;

pub mod cat;
pub mod dog;
pub mod dto;
pub mod horse;

verus! {

/// The metadata of a Kubernetes object that the operator reads and changes.
#[derive(Debug, Clone)]
pub struct ObjectMeta {
    pub name: Option<String>,
    pub namespace: Option<String>,
    pub uid: Option<String>,
    pub generation: Option<i64>,
    /// When deletion was requested, where it was.
    pub deletion_timestamp: Option<String>,
    pub finalizers: Option<Vec<String>>,
}

/// A status condition of a custom resource.
#[derive(Debug, Clone)]
pub struct Condition {
    pub type_: String,
    pub status: String,
    pub reason: String,
    pub message: String,
    pub last_transition_time: String,
    pub observed_generation: Option<i64>,
}

} // verus!
