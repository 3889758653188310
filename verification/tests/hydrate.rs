use kopgen::commands::hydrate::{
    hydrate_info, hydrate_text, spec_shape, validate_spec_shape, DocumentTop, InfoValue, SpecShape, YamlKey,
};
use kopgen::config::{Config, EnvValues};
use kopgen::errors::AppError;

type Info = Vec<(YamlKey<String>, InfoValue<String>)>;

fn test_config() -> Config {
    let s = |v: &str| Some(v.to_string());
    Config::from_env(&EnvValues {
        operator_name: s("Custom Operator Name"),
        operator_author: s("Custom Author"),
        api_group: s("test-group"),
        api_version: s("v1"),
        resource_ref: s("test-resource-ref"),
        example_metadata_spec_field_ref: s("test-field-ref"),
        include_tags: s("tag1,tag2"),
        secret_name: None,
    })
    .unwrap()
}

/// The `info` mapping of `title: Test API` and `version: 1.0.0`.
fn test_info() -> Info {
    vec![
        (YamlKey::Text("title".to_string()), InfoValue::Existing("Test API".to_string())),
        (YamlKey::Text("version".to_string()), InfoValue::Existing("1.0.0".to_string())),
    ]
}

fn get<'a>(info: &'a Info, key: &str) -> Option<&'a InfoValue<String>> {
    info.iter().find_map(|(k, v)| match k {
        YamlKey::Text(t) if t == key => Some(v),
        _ => None,
    })
}

fn text(info: &Info, key: &str) -> String {
    match get(info, key) {
        Some(InfoValue::Text(t)) => t.clone(),
        other => panic!("{} is not a hydrated string: {:?}", key, other.is_some()),
    }
}

fn list(info: &Info, key: &str) -> Vec<String> {
    match get(info, key) {
        Some(InfoValue::List(l)) => l.clone(),
        _ => panic!("{} is not a hydrated list", key),
    }
}

fn assert_hydrated(info: &Info) {
    assert_eq!(text(info, "x-kubernetes-operator-api-group"), "test-group");
    assert_eq!(text(info, "x-kubernetes-operator-api-version"), "v1");
    assert_eq!(text(info, "x-kubernetes-operator-resource-ref"), "test-resource-ref");
    assert_eq!(list(info, "x-kubernetes-operator-include-tags"), vec!["tag1", "tag2"]);
    assert_eq!(
        text(info, "x-kubernetes-operator-example-metadata-spec-field-ref"),
        "test-field-ref"
    );
}

#[test]
fn test_execute_hydrates_openapi_spec() {
    let shape = SpecShape::Mapping { has_openapi: true, has_info: true };
    assert!(validate_spec_shape(&shape).is_ok());
    let mut info = test_info();
    hydrate_info(&mut info, &test_config());
    assert_hydrated(&info);
}

#[test]
fn test_execute_hydrates_with_defaults() {
    let mut info = test_info();
    hydrate_info(&mut info, &test_config());
    assert_hydrated(&info);
}

#[test]
fn test_execute_hydrate_no_fields_to_modify() {
    let mut info = test_info();
    hydrate_info(&mut info, &test_config());
    assert_hydrated(&info);
    assert_eq!(info.len(), 7);
}

#[test]
fn test_execute_hydrate_preserves_unrelated_fields() {
    let mut info = test_info();
    hydrate_info(&mut info, &test_config());
    assert!(matches!(get(&info, "title"), Some(InfoValue::Existing(t)) if t == "Test API"));
    assert!(matches!(get(&info, "version"), Some(InfoValue::Existing(v)) if v == "1.0.0"));
    assert_eq!(text(&info, "x-kubernetes-operator-api-group"), "test-group");
}

#[test]
fn an_empty_spec_is_refused() {
    let r = validate_spec_shape(&SpecShape::Empty);
    assert!(matches!(r, Err(AppError::ConfigError(ref m)) if m == "OpenAPI spec file is empty"));
}

#[test]
fn hydrate_rejects_documents_without_openapi_or_info() {
    let r = validate_spec_shape(&SpecShape::Mapping { has_openapi: false, has_info: true });
    assert!(matches!(r, Err(AppError::ConfigError(ref m))
        if m == "OpenAPI spec is missing required 'openapi' field"));
    let r = validate_spec_shape(&SpecShape::Mapping { has_openapi: true, has_info: false });
    assert!(matches!(r, Err(AppError::ConfigError(ref m))
        if m == "OpenAPI spec is missing required 'info' field"));
    assert!(validate_spec_shape(&SpecShape::Other).is_ok());
}

#[test]
fn hydrating_twice_changes_nothing() {
    let mut once = test_info();
    hydrate_info(&mut once, &test_config());
    let mut twice = test_info();
    hydrate_info(&mut twice, &test_config());
    hydrate_info(&mut twice, &test_config());
    assert_eq!(once.len(), twice.len());
    for key in [
        "x-kubernetes-operator-api-group",
        "x-kubernetes-operator-api-version",
        "x-kubernetes-operator-resource-ref",
        "x-kubernetes-operator-example-metadata-spec-field-ref",
    ] {
        assert_eq!(text(&once, key), text(&twice, key));
    }
    assert_eq!(list(&twice, "x-kubernetes-operator-include-tags"), vec!["tag1", "tag2"]);
}

#[test]
fn hydrate_replaces_an_existing_extension_in_place() {
    let mut info = vec![
        (
            YamlKey::Text("x-kubernetes-operator-api-group".to_string()),
            InfoValue::Existing("old".to_string()),
        ),
        (YamlKey::Other("not a string key".to_string()), InfoValue::Existing("kept".to_string())),
    ];
    hydrate_info(&mut info, &test_config());
    assert!(matches!(&info[0].0, YamlKey::Text(k) if k == "x-kubernetes-operator-api-group"));
    assert_eq!(text(&info, "x-kubernetes-operator-api-group"), "test-group");
    assert!(matches!(&info[1].1, InfoValue::Existing(v) if v == "kept"));
    assert_eq!(info.len(), 6);
}

const SPEC: &str = "---\nopenapi: 3.1.0\ninfo:\n  title: Test API\n  version: 1.0.0\nservers:\n  - url: https://api.test.com\n";

#[test]
fn hydrating_a_spec_text_adds_the_extensions_and_keeps_the_rest() {
    let out = hydrate_text(SPEC, &test_config()).unwrap();
    assert!(out.contains("x-kubernetes-operator-api-group: test-group"));
    assert!(out.contains("x-kubernetes-operator-api-version: v1"));
    assert!(out.contains("x-kubernetes-operator-resource-ref: test-resource-ref"));
    assert!(out.contains("x-kubernetes-operator-include-tags:\n  - tag1\n  - tag2"));
    assert!(out.contains("x-kubernetes-operator-example-metadata-spec-field-ref: test-field-ref"));
    assert!(out.contains("title: Test API"));
    assert!(out.contains("url: https://api.test.com"));
    let again = hydrate_text(&out, &test_config()).unwrap();
    assert_eq!(again, out);
}

#[test]
fn hydrating_texts_that_are_not_specs() {
    assert!(matches!(hydrate_text("", &test_config()),
        Err(AppError::ConfigError(ref m)) if m == "OpenAPI spec file is empty"));
    assert!(matches!(hydrate_text("info:\n  title: x\n", &test_config()),
        Err(AppError::ConfigError(ref m)) if m == "OpenAPI spec is missing required 'openapi' field"));
    assert!(matches!(hydrate_text("info: [unclosed\n", &test_config()), Err(AppError::YamlError(_))));
    let out = hydrate_text("openapi: 3.1.0\ninfo: plain\n", &test_config()).unwrap();
    assert_eq!(out, "openapi: 3.1.0\ninfo: plain\n");
}

#[test]
fn test_execute_hydrate_invalid_yaml() {
    let openapi_yaml = "---\ninfo:\n  title: Test API\n  version: 1.0.0\n  invalid_yaml: !!invalid\n";
    let result = hydrate_text(openapi_yaml, &test_config());
    assert!(result.is_err(), "Expected hydrate command to fail due to invalid YAML format");
}

#[test]
fn test_execute_hydrate_empty_yaml() {
    let result = hydrate_text("", &test_config());
    assert!(result.is_err(), "Expected hydrate command to fail due to empty YAML file");
    assert!(matches!(result, Err(AppError::ConfigError(ref m)) if m == "OpenAPI spec file is empty"));
}

#[test]
fn the_shape_of_a_spec_comes_from_its_top_level_string_keys() {
    let top = DocumentTop::Mapping(vec![Some("openapi".to_string()), None, Some("info".to_string())]);
    assert!(matches!(spec_shape(&top), SpecShape::Mapping { has_openapi: true, has_info: true }));
    let top = DocumentTop::Mapping(vec![Some("info".to_string()), Some("openapis".to_string())]);
    assert!(matches!(spec_shape(&top), SpecShape::Mapping { has_openapi: false, has_info: true }));
    assert!(matches!(spec_shape(&DocumentTop::Empty), SpecShape::Empty));
    assert!(matches!(spec_shape(&DocumentTop::Other), SpecShape::Other));
    let r = hydrate_text("openapi: 3.1.0\n", &test_config()).unwrap_err();
    assert!(matches!(r, AppError::ConfigError(ref m) if m == "OpenAPI spec is missing required 'info' field"));
}
