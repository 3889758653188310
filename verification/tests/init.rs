use kopgen::commands::init::{
    execute, init_cli, init_crdgen_main, init_operator_main, init_readme, InitAction,
    InitTemplate,
};

fn created_directories(base: &str) -> Vec<String> {
    execute(base, false, false)
        .unwrap()
        .into_iter()
        .filter(|s| s.action == InitAction::CreateDirectory)
        .map(|s| s.directory)
        .collect()
}

fn written_files(base: &str) -> Vec<String> {
    execute(base, false, false)
        .unwrap()
        .into_iter()
        .filter(|s| matches!(s.action, InitAction::Render(_) | InitAction::Touch))
        .map(|s| format!("{}/{}", s.directory, s.name))
        .collect()
}

#[test]
fn init_command_init_creates_required_directories() {
    let base = "/tmp/project";
    let dirs = created_directories(base);
    for d in [
        ".cargo",
        ".devcontainer",
        "operator",
        "crdgen",
        "crdgen/src",
        "tests",
        "tests/src/utils",
        "operator/src/controllers",
        "operator/src/types",
        "manifests/crds",
        "manifests/rbac",
        "manifests/operator",
        "manifests/examples",
    ] {
        let path = format!("{}/{}", base, d);
        assert!(dirs.contains(&path), "Directory {} was not created", d);
    }
}

#[test]
fn init_command_init_creates_required_files() {
    let base = "/tmp/project";
    let files = written_files(base);
    for f in [
        ".openapi-generator-ignore",
        "Cargo.toml",
        ".dockerignore",
        ".editorconfig",
        ".env.example",
        ".gitattributes",
        ".gitignore",
        "Taskfile.yml",
        "README.md",
        ".prettierrc.yaml",
        ".rustfmt.toml",
        "Cluster.yaml",
        "Dockerfile",
        "operator/Cargo.toml",
        "crdgen/Cargo.toml",
        "tests/Cargo.toml",
        ".devcontainer/devcontainer.json",
        ".devcontainer/deps.sh",
        ".devcontainer/setup-git.sh",
        ".devcontainer/launch.json",
        ".devcontainer/.zshrc",
        ".cargo/config.toml",
        "operator/src/main.rs",
        "operator/src/cli.rs",
        "operator/src/controllers/mod.rs",
        "operator/src/types/mod.rs",
        "tests/src/utils/mod.rs",
        "tests/src/utils/client.rs",
        "tests/src/utils/operator.rs",
        "tests/src/utils/cluster.rs",
        "tests/main.rs",
    ] {
        let path = format!("{}/{}", base, f);
        assert!(files.contains(&path), "File {} was not created", f);
    }
}

#[test]
fn init_command_init_skips_existing_directory() {
    assert!(execute("/tmp/project", true, true).is_none());
    assert!(execute("/tmp/project", true, false).is_some());
    assert!(execute("/tmp/project", false, false).is_some());
}

#[test]
fn init_creates_the_project_directory_and_its_ignore_file_first() {
    let steps = execute("base", false, false).unwrap();
    assert_eq!(steps.len(), 51);
    assert_eq!(steps[0].action, InitAction::CreateDirectory);
    assert_eq!(steps[0].directory, "base");
    assert_eq!(steps[1].action, InitAction::Render(InitTemplate::OpenApiGeneratorIgnore));
    assert_eq!(steps[1].directory, "base");
    assert_eq!(steps[1].name, ".openapi-generator-ignore");
    assert_eq!(steps[2].action, InitAction::CreateDirectory);
    assert_eq!(steps[2].directory, "base/.cargo");
}

#[test]
fn init_registers_test_utilities_and_executables() {
    let steps = execute("base/", false, false).unwrap();
    let utils: Vec<&str> = steps
        .iter()
        .filter(|s| s.action == InitAction::AddTestUtil)
        .map(|s| s.name.as_str())
        .collect();
    assert_eq!(utils, vec!["client", "operator", "cluster"]);
    let executables: Vec<String> = steps
        .iter()
        .filter(|s| s.action == InitAction::MakeExecutable)
        .map(|s| format!("{}/{}", s.directory, s.name))
        .collect();
    assert_eq!(
        executables,
        vec!["base/.devcontainer/deps.sh", "base/.devcontainer/setup-git.sh"]
    );
}

#[test]
fn init_templates_hold_the_project_defaults() {
    let main = init_operator_main();
    assert_eq!(main.api_group, "example.com");
    assert_eq!(main.api_version, "v1");
    assert!(main.controllers.is_empty() && main.types.is_empty());
    assert!(init_crdgen_main().resources.is_empty());
    let cli = init_cli();
    assert_eq!(cli.project_name, "Example Operator Project");
    assert_eq!(cli.version, "0.1.0");
    assert_eq!(cli.author, "example");
    assert_eq!(init_readme().project_name, "Example Operator Project");
}

#[test]
fn env_example_holds_the_configuration() {
    let conf = kopgen::config::Config {
        operator_name: "example_operator".to_string(),
        operator_author: "Author Name".to_string(),
        api_group: "example.com".to_string(),
        api_version: "v1".to_string(),
        resource_ref: "resourceRef".to_string(),
        example_metadata_spec_field_ref: "fieldRef".to_string(),
        include_tags: vec!["tag1".to_string()],
        secret_name: "secret".to_string(),
    };
    let e = kopgen::commands::init::init_env_example(&conf);
    assert_eq!(e.operator_name, "example_operator");
    assert_eq!(e.operator_author, "Author Name");
    assert_eq!(e.operator_api_group, "example.com");
    assert_eq!(e.operator_api_version, "v1");
    assert_eq!(e.operator_resource_ref, "resourceRef");
    assert_eq!(e.operator_example_metadata_spec_field_ref, "fieldRef");
    assert_eq!(e.operator_include_tags, "tag1");
    assert_eq!(e.operator_secret_name, "secret");
}

#[test]
fn env_example_joins_the_tags_with_commas() {
    let conf = kopgen::config::Config {
        operator_name: String::new(),
        operator_author: String::new(),
        api_group: String::new(),
        api_version: String::new(),
        resource_ref: String::new(),
        example_metadata_spec_field_ref: String::new(),
        include_tags: vec!["cats".to_string(), "dogs".to_string()],
        secret_name: String::new(),
    };
    assert_eq!(kopgen::commands::init::init_env_example(&conf).operator_include_tags, "cats,dogs");
}
