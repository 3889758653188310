//! Templates of the CRD generator.

use vstd::prelude::*;

verus! {

/// `crdgen/src/main.rs`: each resource's module name with its type name, ordered by
/// module name.
#[derive(Debug)]
pub struct Main {
    pub resources: Vec<(String, String)>,
}

} // verus!
