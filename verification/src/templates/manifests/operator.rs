//! Templates of the operator's own manifests.

use vstd::prelude::*;

verus! {

/// `manifests/operator/deployment.yaml`.
#[derive(Debug)]
pub struct Deployment {
    pub secret_name: String,
}

/// `manifests/operator/secret.yaml`.
#[derive(Debug)]
pub struct Secret {
    pub secret_name: String,
}

} // verus!
