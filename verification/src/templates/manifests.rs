//! Templates of the generated project's Kubernetes manifests.

pub mod examples;
pub mod operator;
pub mod rbac;
