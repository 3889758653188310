//! The `Horse` custom resource.

use vstd::prelude::*;

use crate::types::ObjectMeta;

verus! {

/// The desired state of a horse.
#[derive(Debug, Clone)]
pub struct HorseSpec {
    pub name: String,
    pub breed: String,
    pub age: i32,
}

/// The observed state of a horse.
#[derive(Debug, Clone)]
pub struct HorseStatus {
    /// The horse's identifier on the remote API, once it is created there.
    pub uuid: Option<String>,
}

/// A horse: the `Horse` custom resource of group `example.com`, version `v1`.
#[derive(Debug, Clone)]
pub struct Horse {
    pub metadata: ObjectMeta,
    pub spec: HorseSpec,
    pub status: Option<HorseStatus>,
}

} // verus!
