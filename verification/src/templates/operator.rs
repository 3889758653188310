//! Templates of the generated operator's sources.

use vstd::prelude::*;

use crate::templates::{ControllerAttributes, Field};

verus! {

/// `operator/src/main.rs`.
#[derive(Debug)]
pub struct Main {
    pub api_group: String,
    pub api_version: String,
    pub controllers: Vec<String>,
    pub types: Vec<String>,
}

/// `operator/src/cli.rs`.
#[derive(Debug)]
pub struct Cli {
    pub project_name: String,
    pub version: String,
    pub author: String,
}

/// `operator/src/controllers/<tag>.rs`: the controller of one tag.
#[derive(Debug)]
pub struct Controller {
    pub tag: String,
    pub arg_name: String,
    pub kind_struct: String,
    pub dto_fields: Vec<Field>,
    pub resource_remote_ref: String,
    pub has_create_action: bool,
    pub has_update_action: bool,
    pub has_delete_action: bool,
    pub api_url: String,
}

/// The delete actions of a controller.
#[derive(Debug)]
pub struct ControllerActionDelete<'a> {
    pub arg_name: String,
    pub kind_struct: String,
    pub controllers: Vec<&'a ControllerAttributes>,
    pub resource_remote_ref: String,
}

/// The update actions of a controller.
#[derive(Debug)]
pub struct ControllerActionPut<'a> {
    pub arg_name: String,
    pub kind_struct: String,
    pub controllers: Vec<&'a ControllerAttributes>,
    pub resource_remote_ref: String,
}

/// The create actions of a controller.
#[derive(Debug)]
pub struct ControllerActionPost<'a> {
    pub arg_name: String,
    pub kind_struct: String,
    pub controllers: Vec<&'a ControllerAttributes>,
    pub resource_remote_ref: String,
}

/// `operator/src/types/<name>.rs`: a custom resource type.
#[derive(Debug)]
pub struct Type {
    pub tag_name: String,
    pub struct_name: String,
    pub api_version: String,
    pub group_name: String,
    pub fields: Vec<Field>,
    pub reference_id: String,
}

/// `operator/src/lib.rs`.
#[derive(Debug)]
pub struct Lib {}

} // verus!
