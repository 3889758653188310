//! Templates of the example manifests.

use vstd::prelude::*;

use crate::templates::Resource;

verus! {

/// `manifests/examples/<name>.yaml`: the example resources of one example.
#[derive(Debug)]
pub struct Example {
    pub resources: Vec<Resource>,
}

} // verus!
