//! The data that each template of a generated project is rendered from.

use vstd::prelude::*;

pub mod cargo;
pub mod crdgen;
pub mod devcontainer;
pub mod filters;
pub mod general;
pub mod manifests;
pub mod operator;
pub mod tests;

verus! {

/// The identifiers that a namespaced role grants access to.
#[derive(Debug)]
pub struct RoleTemplateIdentifiers {
    pub api_group: String,
    pub resources: Vec<String>,
}

/// The identifiers that a cluster role grants access to.
#[derive(Debug)]
pub struct ClusterRoleTemplateIdentifiers {
    pub api_group: String,
    pub resources: Vec<String>,
}

/// One custom resource of an example manifest.
#[derive(Debug)]
pub struct Resource {
    pub api_group: String,
    pub api_version: String,
    pub kind: String,
    pub metadata: Metadata,
    pub spec: String,
}

/// The metadata of an example resource.
#[derive(Debug)]
pub struct Metadata {
    pub name: String,
}

/// A field of a generated type: its name and its Rust type.
#[derive(Debug)]
pub struct Field {
    pub pub_name: String,
    pub field_type: String,
}

impl View for Field {
    type V = (Seq<char>, Seq<char>);

    open spec fn view(&self) -> (Seq<char>, Seq<char>) {
        (self.pub_name@, self.field_type@)
    }
}

impl DeepView for Field {
    type V = (Seq<char>, Seq<char>);

    open spec fn deep_view(&self) -> (Seq<char>, Seq<char>) {
        self@
    }
}

/// An operation that a controller performs on the remote API.
#[derive(Debug)]
pub struct ControllerAttributes {
    pub operation_id: String,
    pub http_method: String,
    pub action_summary: String,
}

impl View for ControllerAttributes {
    type V = (Seq<char>, Seq<char>, Seq<char>);

    open spec fn view(&self) -> (Seq<char>, Seq<char>, Seq<char>) {
        (self.operation_id@, self.http_method@, self.action_summary@)
    }
}

impl DeepView for ControllerAttributes {
    type V = (Seq<char>, Seq<char>, Seq<char>);

    open spec fn deep_view(&self) -> (Seq<char>, Seq<char>, Seq<char>) {
        self@
    }
}

} // verus!
