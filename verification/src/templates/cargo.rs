//! Templates of the generated project's Cargo manifests.

use vstd::prelude::*;

verus! {

/// `Cargo.toml` of the workspace.
#[derive(Debug)]
pub struct CargoToml {}

/// `operator/Cargo.toml`.
#[derive(Debug)]
pub struct OperatorCargoToml {}

/// `crdgen/Cargo.toml`.
#[derive(Debug)]
pub struct CrdgenCargoToml {}

/// `tests/Cargo.toml`.
#[derive(Debug)]
pub struct TestsCargoToml {}

} // verus!
