//! The `Cat` custom resource.

use vstd::prelude::*;

use crate::types::{Condition, ObjectMeta};

verus! {

/// The desired state of a cat.
#[derive(Debug, Clone)]
pub struct CatSpec {
    pub name: String,
    pub breed: String,
    pub age: i32,
}

/// The observed state of a cat.
#[derive(Debug, Clone)]
pub struct CatStatus {
    /// The cat's identifier on the remote API, once it is created there.
    pub uuid: Option<String>,
    pub conditions: Vec<Condition>,
    pub observed_generation: Option<i64>,
}

/// A cat: the `Cat` custom resource of group `example.com`, version `v1`.
#[derive(Debug, Clone)]
pub struct Cat {
    pub metadata: ObjectMeta,
    pub spec: CatSpec,
    pub status: Option<CatStatus>,
}

} // verus!
