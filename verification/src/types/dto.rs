//! The objects of the remote API.

use vstd::prelude::*;

verus! {

/// A cat as the remote API holds it.
#[derive(Debug, Clone)]
pub struct Cat {
    pub uuid: Option<String>,
    pub name: String,
    pub breed: String,
    pub age: i32,
}

/// A dog as the remote API holds it.
#[derive(Debug, Clone)]
pub struct Dog {
    pub uuid: Option<String>,
    pub name: String,
    pub breed: String,
    pub age: i32,
}

/// A horse as the remote API holds it.
#[derive(Debug, Clone)]
pub struct Horse {
    pub uuid: Option<String>,
    pub name: String,
    pub breed: String,
    pub age: i32,
}

} // verus!
