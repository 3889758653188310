//! The command line of the generator, as plain data.

use vstd::prelude::*;

verus! {

/// The parsed command line of the Kubernetes Operator Generator.
#[derive(Debug)]
pub struct Cli {
    /// The command to execute.
    pub command: Option<Commands>,
    /// The name of the kubernetes operator.
    pub kubernetes_operator_name: String,
    /// The author of the kubernetes operator.
    pub kubernetes_operator_author: String,
    /// The API group of the kubernetes operator.
    pub kubernetes_operator_api_group: String,
    /// The API version of the operator.
    pub kubernetes_operator_api_version: String,
    /// The resource reference the operator uses to track resources.
    pub kubernetes_operator_resource_ref: String,
    /// The example field used as the resource metadata name.
    pub kubernetes_operator_example_metadata_spec_field_ref: String,
    /// The tags to include in the operator.
    pub kubernetes_operator_include_tags: Vec<String>,
    /// The name of the secret the operator uses.
    pub secret_name: String,
}

/// The commands of the generator.
#[derive(Debug)]
pub enum Commands {
    /// Initialize a new operator project at `path`.
    Init { path: String },
    /// Add the `x-kubernetes-operator-*` extensions to a specification.
    Hydrate { openapi_file: String },
    /// Generate operator code from a specification.
    Generate {
        openapi_file: String,
        path: String,
        all: bool,
        /// Generate the operator's `lib.rs`.
        lib: bool,
        manifests: bool,
        controllers: bool,
        types: bool,
    },
}

} // verus!
