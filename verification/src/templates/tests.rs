//! Templates of the generated project's integration tests.

use vstd::prelude::*;

verus! {

/// `tests/main.rs`.
#[derive(Debug)]
pub struct Main {}

/// `tests/src/utils/client.rs`.
#[derive(Debug)]
pub struct UtilsClient {}

/// `tests/src/utils/operator.rs`.
#[derive(Debug)]
pub struct UtilsOperator {}

/// `tests/src/utils/cluster.rs`.
#[derive(Debug)]
pub struct UtilsCluster {}

} // verus!
