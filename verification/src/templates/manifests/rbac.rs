//! Templates of the RBAC manifests.

use vstd::prelude::*;

use crate::templates::{ClusterRoleTemplateIdentifiers, RoleTemplateIdentifiers};

verus! {

/// `manifests/rbac/role.yaml`.
#[derive(Debug)]
pub struct Role {
    pub identifiers: RoleTemplateIdentifiers,
}

/// `manifests/rbac/clusterrole.yaml`.
#[derive(Debug)]
pub struct ClusterRole {
    pub identifiers: ClusterRoleTemplateIdentifiers,
}

/// `manifests/rbac/serviceaccount.yaml`.
#[derive(Debug)]
pub struct ServiceAccount {}

/// `manifests/rbac/rolebinding.yaml`.
#[derive(Debug)]
pub struct RoleBinding {}

/// `manifests/rbac/clusterrolebinding.yaml`.
#[derive(Debug)]
pub struct ClusterRoleBinding {}

} // verus!
