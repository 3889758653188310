//! The `Dog` custom resource.

use vstd::prelude::*;

use crate::types::ObjectMeta;

verus! {

/// The desired state of a dog.
#[derive(Debug, Clone)]
pub struct DogSpec {
    pub name: String,
    pub breed: String,
    pub age: i32,
}

/// The observed state of a dog.
#[derive(Debug, Clone)]
pub struct DogStatus {
    /// The dog's identifier on the remote API, once it is created there.
    pub uuid: Option<String>,
}

/// A dog: the `Dog` custom resource of group `example.com`, version `v1`.
#[derive(Debug, Clone)]
pub struct Dog {
    pub metadata: ObjectMeta,
    pub spec: DogSpec,
    pub status: Option<DogStatus>,
}

} // verus!
