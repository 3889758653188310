//! The layout of a new project: the directories the `init` command creates and the
//! files it writes, in order.

use vstd::prelude::*;

use crate::templates::crdgen::Main as CrdgenMain;
use crate::config::Config;
use crate::templates::general::{EnvExample, ReadmeMd};
use crate::text::{join, join_with};
use crate::templates::operator::{Cli, Main as OperatorMain};
use crate::utils::{joined_path, path_join};

verus! {

/// The templates a new project is written from.
#[derive(PartialEq, Eq, Structural, Debug, Clone, Copy)]
pub enum InitTemplate {
    OpenApiGeneratorIgnore,
    CargoToml,
    OperatorCargoToml,
    CrdgenCargoToml,
    TestsCargoToml,
    OperatorMain,
    CrdgenMain,
    TestsMain,
    OperatorCli,
    Dockerignore,
    Editorconfig,
    EnvExample,
    GitAttributes,
    GitIgnore,
    Taskfile,
    Prettierrc,
    RustfmtToml,
    ClusterYaml,
    Dockerfile,
    ReadmeMd,
    DevcontainerJson,
    DevcontainerDeps,
    SetupGit,
    LaunchJsonExample,
    Zshrc,
    CargoConfig,
    UtilsClient,
    UtilsOperator,
    UtilsCluster,
}

/// What one step of the `init` command does.
#[derive(PartialEq, Eq, Structural, Debug, Clone, Copy)]
pub enum InitAction {
    /// Create the directory `directory` where it does not exist.
    CreateDirectory,
    /// Write file `name` of `directory` from the template.
    Render(InitTemplate),
    /// Create the empty file `name` of `directory` where it does not exist.
    Touch,
    /// Declare test utility `name` in the test utilities' `mod.rs` of project `directory`.
    AddTestUtil,
    /// Make file `name` of `directory` executable.
    MakeExecutable,
}

/// One step of the `init` command.
#[derive(Debug)]
pub struct InitStep {
    pub action: InitAction,
    pub directory: String,
    pub name: String,
}

/// What a step does, to what.
pub open spec fn step_view(s: InitStep) -> (InitAction, Seq<char>, Seq<char>) {
    (s.action, s.directory@, s.name@)
}

/// Whether the `init` command lays out a project in a directory: unless the directory
/// exists and has entries already.
pub open spec fn initializes(exists: bool, has_entries: bool) -> bool {
    !(exists && has_entries)
}

/// The steps of the `init` command in directory `b`, in order.
pub open spec fn init_steps(b: Seq<char>) -> Seq<(InitAction, Seq<char>, Seq<char>)> {
    seq![
        (InitAction::CreateDirectory, b, ""@),
        (InitAction::Render(InitTemplate::OpenApiGeneratorIgnore), b, ".openapi-generator-ignore"@),
        (InitAction::CreateDirectory, joined_path(b, ".cargo"@), ""@),
        (InitAction::CreateDirectory, joined_path(b, ".devcontainer"@), ""@),
        (InitAction::CreateDirectory, joined_path(b, "operator"@), ""@),
        (InitAction::CreateDirectory, joined_path(b, "crdgen"@), ""@),
        (InitAction::CreateDirectory, joined_path(joined_path(b, "crdgen"@), "src"@), ""@),
        (InitAction::CreateDirectory, joined_path(b, "tests"@), ""@),
        (InitAction::CreateDirectory, joined_path(b, "operator/src/controllers"@), ""@),
        (InitAction::CreateDirectory, joined_path(b, "operator/src/types"@), ""@),
        (InitAction::CreateDirectory, joined_path(b, "tests/src/utils"@), ""@),
        (InitAction::CreateDirectory, joined_path(b, "manifests/crds"@), ""@),
        (InitAction::CreateDirectory, joined_path(b, "manifests/rbac"@), ""@),
        (InitAction::CreateDirectory, joined_path(b, "manifests/operator"@), ""@),
        (InitAction::CreateDirectory, joined_path(b, "manifests/examples"@), ""@),
        (InitAction::Render(InitTemplate::CargoToml), b, "Cargo.toml"@),
        (InitAction::Render(InitTemplate::OperatorCargoToml), joined_path(b, "operator"@), "Cargo.toml"@),
        (InitAction::Render(InitTemplate::CrdgenCargoToml), joined_path(b, "crdgen"@), "Cargo.toml"@),
        (InitAction::Render(InitTemplate::TestsCargoToml), joined_path(b, "tests"@), "Cargo.toml"@),
        (InitAction::Render(InitTemplate::OperatorMain), joined_path(joined_path(b, "operator"@), "src"@), "main.rs"@),
        (InitAction::Render(InitTemplate::CrdgenMain), joined_path(joined_path(b, "crdgen"@), "src"@), "main.rs"@),
        (InitAction::Render(InitTemplate::TestsMain), joined_path(b, "tests"@), "main.rs"@),
        (InitAction::Render(InitTemplate::OperatorCli), joined_path(joined_path(b, "operator"@), "src"@), "cli.rs"@),
        (InitAction::Render(InitTemplate::Dockerignore), b, ".dockerignore"@),
        (InitAction::Render(InitTemplate::Editorconfig), b, ".editorconfig"@),
        (InitAction::Render(InitTemplate::EnvExample), b, ".env.example"@),
        (InitAction::Render(InitTemplate::GitAttributes), b, ".gitattributes"@),
        (InitAction::Render(InitTemplate::GitIgnore), b, ".gitignore"@),
        (InitAction::Render(InitTemplate::Taskfile), b, "Taskfile.yml"@),
        (InitAction::Render(InitTemplate::Prettierrc), b, ".prettierrc.yaml"@),
        (InitAction::Render(InitTemplate::RustfmtToml), b, ".rustfmt.toml"@),
        (InitAction::Render(InitTemplate::ClusterYaml), b, "Cluster.yaml"@),
        (InitAction::Render(InitTemplate::Dockerfile), b, "Dockerfile"@),
        (InitAction::Render(InitTemplate::ReadmeMd), b, "README.md"@),
        (InitAction::Render(InitTemplate::DevcontainerJson), joined_path(b, ".devcontainer"@), "devcontainer.json"@),
        (InitAction::Render(InitTemplate::DevcontainerDeps), joined_path(b, ".devcontainer"@), "deps.sh"@),
        (InitAction::Render(InitTemplate::SetupGit), joined_path(b, ".devcontainer"@), "setup-git.sh"@),
        (InitAction::Render(InitTemplate::LaunchJsonExample), joined_path(b, ".devcontainer"@), "launch.json"@),
        (InitAction::Render(InitTemplate::Zshrc), joined_path(b, ".devcontainer"@), ".zshrc"@),
        (InitAction::Render(InitTemplate::CargoConfig), joined_path(b, ".cargo"@), "config.toml"@),
        (InitAction::Touch, joined_path(b, "operator/src/controllers"@), "mod.rs"@),
        (InitAction::Touch, joined_path(b, "operator/src/types"@), "mod.rs"@),
        (InitAction::Touch, joined_path(b, "tests/src/utils"@), "mod.rs"@),
        (InitAction::Render(InitTemplate::UtilsClient), joined_path(b, "tests/src/utils"@), "client.rs"@),
        (InitAction::Render(InitTemplate::UtilsOperator), joined_path(b, "tests/src/utils"@), "operator.rs"@),
        (InitAction::Render(InitTemplate::UtilsCluster), joined_path(b, "tests/src/utils"@), "cluster.rs"@),
        (InitAction::AddTestUtil, b, "client"@),
        (InitAction::AddTestUtil, b, "operator"@),
        (InitAction::AddTestUtil, b, "cluster"@),
        (InitAction::MakeExecutable, joined_path(b, ".devcontainer"@), "deps.sh"@),
        (InitAction::MakeExecutable, joined_path(b, ".devcontainer"@), "setup-git.sh"@),
    ]
}

/// The steps that lay out a new project in directory `base`; none where the directory
/// exists and has entries already.
pub fn execute(base: &str, exists: bool, has_entries: bool) -> (steps: Option<Vec<InitStep>>)
    ensures
        steps is Some <==> initializes(exists, has_entries),
        steps is Some ==> steps->0@.map_values(|s: InitStep| step_view(s)) == init_steps(base@),
{
    if exists && has_entries {
        return None;
    }
    let cargo_dir = path_join(base, ".cargo");
    let devcontainer_dir = path_join(base, ".devcontainer");
    let operator_dir = path_join(base, "operator");
    let crdgen_dir = path_join(base, "crdgen");
    let crdgen_src = path_join(crdgen_dir.as_str(), "src");
    let operator_src = path_join(operator_dir.as_str(), "src");
    let tests_dir = path_join(base, "tests");
    let controllers_dir = path_join(base, "operator/src/controllers");
    let types_dir = path_join(base, "operator/src/types");
    let utils_dir = path_join(base, "tests/src/utils");
    let crds_dir = path_join(base, "manifests/crds");
    let rbac_dir = path_join(base, "manifests/rbac");
    let manifests_operator_dir = path_join(base, "manifests/operator");
    let examples_dir = path_join(base, "manifests/examples");
    let steps = vec![
        InitStep { action: InitAction::CreateDirectory, directory: base.to_owned(), name: "".to_owned() },
        InitStep { action: InitAction::Render(InitTemplate::OpenApiGeneratorIgnore), directory: base.to_owned(), name: ".openapi-generator-ignore".to_owned() },
        InitStep { action: InitAction::CreateDirectory, directory: cargo_dir.clone(), name: "".to_owned() },
        InitStep { action: InitAction::CreateDirectory, directory: devcontainer_dir.clone(), name: "".to_owned() },
        InitStep { action: InitAction::CreateDirectory, directory: operator_dir.clone(), name: "".to_owned() },
        InitStep { action: InitAction::CreateDirectory, directory: crdgen_dir.clone(), name: "".to_owned() },
        InitStep { action: InitAction::CreateDirectory, directory: crdgen_src.clone(), name: "".to_owned() },
        InitStep { action: InitAction::CreateDirectory, directory: tests_dir.clone(), name: "".to_owned() },
        InitStep { action: InitAction::CreateDirectory, directory: controllers_dir.clone(), name: "".to_owned() },
        InitStep { action: InitAction::CreateDirectory, directory: types_dir.clone(), name: "".to_owned() },
        InitStep { action: InitAction::CreateDirectory, directory: utils_dir.clone(), name: "".to_owned() },
        InitStep { action: InitAction::CreateDirectory, directory: crds_dir.clone(), name: "".to_owned() },
        InitStep { action: InitAction::CreateDirectory, directory: rbac_dir.clone(), name: "".to_owned() },
        InitStep { action: InitAction::CreateDirectory, directory: manifests_operator_dir.clone(), name: "".to_owned() },
        InitStep { action: InitAction::CreateDirectory, directory: examples_dir.clone(), name: "".to_owned() },
        InitStep { action: InitAction::Render(InitTemplate::CargoToml), directory: base.to_owned(), name: "Cargo.toml".to_owned() },
        InitStep { action: InitAction::Render(InitTemplate::OperatorCargoToml), directory: operator_dir.clone(), name: "Cargo.toml".to_owned() },
        InitStep { action: InitAction::Render(InitTemplate::CrdgenCargoToml), directory: crdgen_dir.clone(), name: "Cargo.toml".to_owned() },
        InitStep { action: InitAction::Render(InitTemplate::TestsCargoToml), directory: tests_dir.clone(), name: "Cargo.toml".to_owned() },
        InitStep { action: InitAction::Render(InitTemplate::OperatorMain), directory: operator_src.clone(), name: "main.rs".to_owned() },
        InitStep { action: InitAction::Render(InitTemplate::CrdgenMain), directory: crdgen_src.clone(), name: "main.rs".to_owned() },
        InitStep { action: InitAction::Render(InitTemplate::TestsMain), directory: tests_dir.clone(), name: "main.rs".to_owned() },
        InitStep { action: InitAction::Render(InitTemplate::OperatorCli), directory: operator_src.clone(), name: "cli.rs".to_owned() },
        InitStep { action: InitAction::Render(InitTemplate::Dockerignore), directory: base.to_owned(), name: ".dockerignore".to_owned() },
        InitStep { action: InitAction::Render(InitTemplate::Editorconfig), directory: base.to_owned(), name: ".editorconfig".to_owned() },
        InitStep { action: InitAction::Render(InitTemplate::EnvExample), directory: base.to_owned(), name: ".env.example".to_owned() },
        InitStep { action: InitAction::Render(InitTemplate::GitAttributes), directory: base.to_owned(), name: ".gitattributes".to_owned() },
        InitStep { action: InitAction::Render(InitTemplate::GitIgnore), directory: base.to_owned(), name: ".gitignore".to_owned() },
        InitStep { action: InitAction::Render(InitTemplate::Taskfile), directory: base.to_owned(), name: "Taskfile.yml".to_owned() },
        InitStep { action: InitAction::Render(InitTemplate::Prettierrc), directory: base.to_owned(), name: ".prettierrc.yaml".to_owned() },
        InitStep { action: InitAction::Render(InitTemplate::RustfmtToml), directory: base.to_owned(), name: ".rustfmt.toml".to_owned() },
        InitStep { action: InitAction::Render(InitTemplate::ClusterYaml), directory: base.to_owned(), name: "Cluster.yaml".to_owned() },
        InitStep { action: InitAction::Render(InitTemplate::Dockerfile), directory: base.to_owned(), name: "Dockerfile".to_owned() },
        InitStep { action: InitAction::Render(InitTemplate::ReadmeMd), directory: base.to_owned(), name: "README.md".to_owned() },
        InitStep { action: InitAction::Render(InitTemplate::DevcontainerJson), directory: devcontainer_dir.clone(), name: "devcontainer.json".to_owned() },
        InitStep { action: InitAction::Render(InitTemplate::DevcontainerDeps), directory: devcontainer_dir.clone(), name: "deps.sh".to_owned() },
        InitStep { action: InitAction::Render(InitTemplate::SetupGit), directory: devcontainer_dir.clone(), name: "setup-git.sh".to_owned() },
        InitStep { action: InitAction::Render(InitTemplate::LaunchJsonExample), directory: devcontainer_dir.clone(), name: "launch.json".to_owned() },
        InitStep { action: InitAction::Render(InitTemplate::Zshrc), directory: devcontainer_dir.clone(), name: ".zshrc".to_owned() },
        InitStep { action: InitAction::Render(InitTemplate::CargoConfig), directory: cargo_dir.clone(), name: "config.toml".to_owned() },
        InitStep { action: InitAction::Touch, directory: controllers_dir.clone(), name: "mod.rs".to_owned() },
        InitStep { action: InitAction::Touch, directory: types_dir.clone(), name: "mod.rs".to_owned() },
        InitStep { action: InitAction::Touch, directory: utils_dir.clone(), name: "mod.rs".to_owned() },
        InitStep { action: InitAction::Render(InitTemplate::UtilsClient), directory: utils_dir.clone(), name: "client.rs".to_owned() },
        InitStep { action: InitAction::Render(InitTemplate::UtilsOperator), directory: utils_dir.clone(), name: "operator.rs".to_owned() },
        InitStep { action: InitAction::Render(InitTemplate::UtilsCluster), directory: utils_dir.clone(), name: "cluster.rs".to_owned() },
        InitStep { action: InitAction::AddTestUtil, directory: base.to_owned(), name: "client".to_owned() },
        InitStep { action: InitAction::AddTestUtil, directory: base.to_owned(), name: "operator".to_owned() },
        InitStep { action: InitAction::AddTestUtil, directory: base.to_owned(), name: "cluster".to_owned() },
        InitStep { action: InitAction::MakeExecutable, directory: devcontainer_dir.clone(), name: "deps.sh".to_owned() },
        InitStep { action: InitAction::MakeExecutable, directory: devcontainer_dir.clone(), name: "setup-git.sh".to_owned() },
    ];
    let ghost b = base@;
    assert(steps@.map_values(|s: InitStep| step_view(s)) =~= init_steps(b));
    Some(steps)
}

/// The operator's `main.rs` of a new project: group `example.com`, version `v1`, no
/// controller and no type.
pub fn init_operator_main() -> (m: OperatorMain)
    ensures
        m.api_group@ == "example.com"@,
        m.api_version@ == "v1"@,
        m.controllers@.len() == 0,
        m.types@.len() == 0,
{
    OperatorMain {
        api_group: "example.com".to_owned(),
        api_version: "v1".to_owned(),
        controllers: Vec::new(),
        types: Vec::new(),
    }
}

/// The CRD generator's `main.rs` of a new project: no resource.
pub fn init_crdgen_main() -> (m: CrdgenMain)
    ensures
        m.resources@.len() == 0,
{
    CrdgenMain { resources: Vec::new() }
}

/// The name a new project goes by.
pub open spec fn project_name() -> Seq<char> {
    "Example Operator Project"@
}

/// The operator's `cli.rs` of a new project: the project's name, version `0.1.0`, author
/// `example`.
pub fn init_cli() -> (c: Cli)
    ensures
        c.project_name@ == project_name(),
        c.version@ == "0.1.0"@,
        c.author@ == "example"@,
{
    Cli {
        project_name: "Example Operator Project".to_owned(),
        version: "0.1.0".to_owned(),
        author: "example".to_owned(),
    }
}

/// The `README.md` of a new project, which names the project.
pub fn init_readme() -> (r: ReadmeMd)
    ensures
        r.project_name@ == project_name(),
{
    ReadmeMd { project_name: "Example Operator Project".to_owned() }
}

/// The `.env.example` of a new project: the configuration it was created with, the
/// included tags joined by commas.
pub fn init_env_example(conf: &Config) -> (e: EnvExample)
    ensures
        e.operator_name@ == conf.operator_name@,
        e.operator_author@ == conf.operator_author@,
        e.operator_api_group@ == conf.api_group@,
        e.operator_api_version@ == conf.api_version@,
        e.operator_resource_ref@ == conf.resource_ref@,
        e.operator_example_metadata_spec_field_ref@ == conf.example_metadata_spec_field_ref@,
        e.operator_include_tags@ == join(conf.include_tags.deep_view(), ","@),
        e.operator_secret_name@ == conf.secret_name@,
{
    EnvExample {
        operator_name: conf.operator_name.clone(),
        operator_author: conf.operator_author.clone(),
        operator_api_group: conf.api_group.clone(),
        operator_api_version: conf.api_version.clone(),
        operator_resource_ref: conf.resource_ref.clone(),
        operator_example_metadata_spec_field_ref: conf.example_metadata_spec_field_ref.clone(),
        operator_include_tags: join_with(&conf.include_tags, ","),
        operator_secret_name: conf.secret_name.clone(),
    }
}

} // verus!
