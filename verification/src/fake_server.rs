//! The answers of the pets API that the operator talks to, one enum per operation.

use vstd::prelude::*;

use crate::types::dto::{Cat, Dog};

verus! {

/// The path the API is served under.
pub const BASE_PATH: &'static str = "";

/// The version of the API.
pub const API_VERSION: &'static str = "1.0.0";

/// The answer to listing the cats.
#[derive(Debug)]
pub enum CatsGetResponse {
    /// The cats.
    OK(Vec<Cat>),
}

/// The answer to deleting a cat by its identifier.
#[derive(Debug)]
pub enum CatsIdDeleteResponse {
    /// Deleted.
    NoContent,
}

/// The answer to reading a cat by its identifier.
#[derive(Debug)]
pub enum CatsIdGetResponse {
    /// The cat.
    OK(Cat),
    /// No cat has that identifier.
    NotFound,
}

/// The answer to updating a cat by its identifier.
#[derive(Debug)]
pub enum CatsIdPutResponse {
    /// The updated cat.
    OK(Cat),
    /// No cat has that identifier.
    NotFound,
}

/// The answer to creating a cat.
#[derive(Debug)]
pub enum CatsPostResponse {
    /// The created cat.
    Created(Cat),
}

/// The answer to listing the dogs.
#[derive(Debug)]
pub enum DogsGetResponse {
    /// The dogs.
    OK(Vec<Dog>),
}

/// The answer to deleting a dog by its identifier.
#[derive(Debug)]
pub enum DogsIdDeleteResponse {
    /// Deleted.
    NoContent,
}

/// The answer to reading a dog by its identifier.
#[derive(Debug)]
pub enum DogsIdGetResponse {
    /// The dog.
    OK(Dog),
    /// No dog has that identifier.
    NotFound,
}

/// The answer to updating a dog by its identifier.
#[derive(Debug)]
pub enum DogsIdPutResponse {
    /// The updated dog.
    OK(Dog),
    /// No dog has that identifier.
    NotFound,
}

/// The answer to creating a dog.
#[derive(Debug)]
pub enum DogsPostResponse {
    /// The created dog.
    Created(Dog),
}

} // verus!
