use kopgen::cli::Cli;
use kopgen::config::{parse_include_tags, Config, EnvValues};
use kopgen::errors::AppError;

fn some(s: &str) -> Option<String> {
    Some(s.to_string())
}

/// The environment of the configuration tests: every variable but the secret's set.
fn test_env() -> EnvValues {
    EnvValues {
        operator_name: some("Custom Operator Name"),
        operator_author: some("Custom Author"),
        api_group: some("test-group"),
        api_version: some("v1"),
        resource_ref: some("test-resource-ref"),
        example_metadata_spec_field_ref: some("test-field-ref"),
        include_tags: some("tag1,tag2"),
        secret_name: None,
    }
}

fn empty_env() -> EnvValues {
    EnvValues {
        operator_name: None,
        operator_author: None,
        api_group: None,
        api_version: None,
        resource_ref: None,
        example_metadata_spec_field_ref: None,
        include_tags: None,
        secret_name: None,
    }
}

/// A command line as the argument parser leaves it, defaults filled in.
fn cli(
    name: &str,
    author: &str,
    group: &str,
    version: &str,
    resource_ref: &str,
    field_ref: &str,
    tags: &[&str],
) -> Cli {
    Cli {
        command: None,
        kubernetes_operator_name: name.to_string(),
        kubernetes_operator_author: author.to_string(),
        kubernetes_operator_api_group: group.to_string(),
        kubernetes_operator_api_version: version.to_string(),
        kubernetes_operator_resource_ref: resource_ref.to_string(),
        kubernetes_operator_example_metadata_spec_field_ref: field_ref.to_string(),
        kubernetes_operator_include_tags: tags.iter().map(|t| t.to_string()).collect(),
        secret_name: "operator-secret".to_string(),
    }
}

#[test]
fn test_config_from_env() {
    let config = Config::from_env(&test_env()).unwrap();
    assert_eq!(config.operator_name, "Custom Operator Name");
    assert_eq!(config.operator_author, "Custom Author");
    assert_eq!(config.api_group, "test-group");
    assert_eq!(config.api_version, "v1");
    assert_eq!(config.resource_ref, "test-resource-ref");
    assert_eq!(config.example_metadata_spec_field_ref, "test-field-ref");
    assert_eq!(config.include_tags, vec!["tag1", "tag2"]);
}

#[test]
fn test_config_parses_comma_separated_tags_as_vector() {
    let config = Config::from_env(&test_env()).unwrap();
    assert_eq!(config.include_tags, vec!["tag1", "tag2"]);
}

#[test]
fn test_config_missing_optional_env_vars() {
    let mut env = test_env();
    env.operator_name = None;
    env.operator_author = None;
    let config = Config::from_env(&env).unwrap();
    assert_eq!(config.operator_name, "Example Operator");
    assert_eq!(config.operator_author, "Unknown");
    assert_eq!(config.api_group, "test-group");
    assert_eq!(config.api_version, "v1");
    assert_eq!(config.resource_ref, "test-resource-ref");
    assert_eq!(config.example_metadata_spec_field_ref, "test-field-ref");
    assert_eq!(config.include_tags, vec!["tag1", "tag2"]);
}

#[test]
fn test_config_env_overrides_defaults() {
    let mut env = test_env();
    env.operator_name = some("Overridden Operator Name");
    env.operator_author = some("Overridden Author");
    let config = Config::from_env(&env).unwrap();
    assert_eq!(config.operator_name, "Overridden Operator Name");
    assert_eq!(config.operator_author, "Overridden Author");
}

#[test]
fn from_env_reports_the_first_missing_required_variable() {
    match Config::from_env(&empty_env()) {
        Err(AppError::ConfigError(m)) => {
            assert_eq!(m, "KUBERNETES_OPERATOR_API_GROUP environment variable not set")
        }
        _ => panic!("expected a configuration error"),
    }
    let mut env = test_env();
    env.resource_ref = None;
    env.example_metadata_spec_field_ref = None;
    match Config::from_env(&env) {
        Err(AppError::ConfigError(m)) => {
            assert_eq!(m, "KUBERNETES_OPERATOR_RESOURCE_REF environment variable not set")
        }
        _ => panic!("expected a configuration error"),
    }
    let mut env = test_env();
    env.include_tags = None;
    env.secret_name = None;
    let config = Config::from_env(&env).unwrap();
    assert!(config.include_tags.is_empty());
    assert_eq!(config.secret_name, "operator-secret");
}

#[test]
fn required_variables_are_reported_by_name() {
    match Config::get_env_var(&None, "KEY") {
        Err(AppError::ConfigError(m)) => assert_eq!(m, "KEY environment variable not set"),
        _ => panic!("expected a configuration error"),
    }
    assert_eq!(Config::get_env_var(&Some("v".to_string()), "KEY").unwrap(), "v");
}

#[test]
fn test_config_load_from_cli_with_args() {
    let cli = cli(
        "CLI Operator",
        "CLI Author",
        "cli-group",
        "v2",
        "cli-resource-ref",
        "cli-field-ref",
        &["cli-tag1", "cli-tag2"],
    );
    let config = Config::from_cli(&cli).unwrap();
    assert_eq!(config.operator_name, "CLI Operator");
    assert_eq!(config.operator_author, "CLI Author");
    assert_eq!(config.api_group, "cli-group");
    assert_eq!(config.api_version, "v2");
    assert_eq!(config.resource_ref, "cli-resource-ref");
    assert_eq!(config.example_metadata_spec_field_ref, "cli-field-ref");
    assert_eq!(config.include_tags, vec!["cli-tag1", "cli-tag2"]);
}

#[test]
fn test_config_load_from_cli_overrides_env_vars() {
    // The argument parser fills what the command line leaves out from the environment.
    let cli = cli(
        "CLI Operator Override",
        "Custom Author",
        "cli-group-override",
        "v1",
        "test-resource-ref",
        "test-field-ref",
        &["tag1", "tag2"],
    );
    let config = Config::from_cli(&cli).unwrap();
    assert_eq!(config.operator_name, "CLI Operator Override");
    assert_eq!(config.operator_author, "Custom Author");
    assert_eq!(config.api_group, "cli-group-override");
    assert_eq!(config.api_version, "v1");
    assert_eq!(config.resource_ref, "test-resource-ref");
    assert_eq!(config.example_metadata_spec_field_ref, "test-field-ref");
    assert_eq!(config.include_tags, vec!["tag1", "tag2"]);
}

#[test]
fn test_config_load_from_cli_without_args() {
    let cli = cli("Example Operator", "Unknown", "example.com", "v1", "uuid", "name", &[]);
    let config = Config::from_cli(&cli).unwrap();
    assert_eq!(config.operator_name, "Example Operator");
    assert_eq!(config.operator_author, "Unknown");
    assert_eq!(config.api_group, "example.com");
    assert_eq!(config.api_version, "v1");
    assert_eq!(config.resource_ref, "uuid");
    assert_eq!(config.example_metadata_spec_field_ref, "name");
    assert_eq!(config.include_tags, Vec::<String>::new());
    assert_eq!(config.secret_name, "operator-secret");
}

#[test]
fn include_tags_skip_empty_pieces_and_trim() {
    assert_eq!(parse_include_tags(" cats , dogs,,horses "), vec!["cats", "dogs", "horses"]);
    assert_eq!(parse_include_tags(""), Vec::<String>::new());
    assert_eq!(parse_include_tags("cats"), vec!["cats"]);
}

#[test]
fn env_var_or_default_prefers_the_value() {
    assert_eq!(Config::get_env_var_or_default(&some("x"), "d"), "x");
    assert_eq!(Config::get_env_var_or_default(&None, "d"), "d");
}
