//! Templates of the generated project's top-level files.

use vstd::prelude::*;

verus! {

/// `.dockerignore`.
#[derive(Debug)]
pub struct Dockerignore {}

/// `.editorconfig`.
#[derive(Debug)]
pub struct Editorconfig {}

/// `.env.example`.
#[derive(Debug)]
pub struct EnvExample {
    pub operator_name: String,
    pub operator_author: String,
    pub operator_api_group: String,
    pub operator_api_version: String,
    pub operator_resource_ref: String,
    pub operator_example_metadata_spec_field_ref: String,
    pub operator_include_tags: String,
    pub operator_secret_name: String,
}

/// `.gitattributes`.
#[derive(Debug)]
pub struct GitAttributes {}

/// `.gitignore`.
#[derive(Debug)]
pub struct GitIgnore {}

/// `.openapi-generator-ignore`.
#[derive(Debug)]
pub struct OpenAPIGeneratorIgnore {}

/// `.prettierrc.yaml`.
#[derive(Debug)]
pub struct Prettierrc {}

/// `.rustfmt.toml`.
#[derive(Debug)]
pub struct RustfmtToml {}

/// `Cluster.yaml`.
#[derive(Debug)]
pub struct ClusterYaml {}

/// `Dockerfile`.
#[derive(Debug)]
pub struct Dockerfile {}

/// `README.md`.
#[derive(Debug)]
pub struct ReadmeMd {
    pub project_name: String,
}

/// `Taskfile.yml`.
#[derive(Debug)]
pub struct Taskfile {}

/// `.cargo/config.toml`.
#[derive(Debug)]
pub struct CargoConfig {}

} // verus!
