use kopgen::errors::AppError;
use kopgen::openapi::{
    extract_extension, extract_extension_array, extract_openapi_info, find_entry,
    validate_openapi_kubernetes_extensions_exists, ExtensionValue,
};

fn string(key: &str, value: &str) -> (String, ExtensionValue) {
    (key.to_string(), ExtensionValue::String(value.to_string()))
}

fn complete_info() -> Vec<(String, ExtensionValue)> {
    vec![
        string("x-kubernetes-operator-api-group", "example.com"),
        string("x-kubernetes-operator-api-version", "v1"),
        string("x-kubernetes-operator-resource-ref", "uuid"),
        (
            "x-kubernetes-operator-include-tags".to_string(),
            ExtensionValue::Array(vec![Some("cats".to_string()), Some("dogs".to_string())]),
        ),
        string("x-kubernetes-operator-example-metadata-spec-field-ref", "name"),
    ]
}

#[test]
fn test_execute_fails_missing_kubernetes_extension() {
    // `info` holds only a title and a version: no extension at all.
    let extensions: Vec<(String, ExtensionValue)> = Vec::new();
    let result = validate_openapi_kubernetes_extensions_exists(&extensions);
    assert!(result.is_err(), "Expected execution to fail due to missing Kubernetes extension.");
    if let Err(AppError::MissingRequiredExtension(ref key)) = result {
        assert_eq!(
            key, "x-kubernetes-operator-api-group",
            "Expected missing extension key to be 'x-kubernetes-operator-api-group'."
        );
    } else {
        panic!("Expected MissingRequiredExtension error.");
    }
    match extract_openapi_info(&extensions) {
        Err(AppError::MissingRequiredExtension(key)) => {
            assert_eq!(key, "x-kubernetes-operator-api-group")
        }
        _ => panic!("Expected MissingRequiredExtension error."),
    }
}

#[test]
fn the_first_missing_extension_is_reported() {
    let mut info = complete_info();
    info.remove(2);
    match validate_openapi_kubernetes_extensions_exists(&info) {
        Err(AppError::MissingRequiredExtension(key)) => {
            assert_eq!(key, "x-kubernetes-operator-resource-ref")
        }
        _ => panic!("expected the resource reference to be reported missing"),
    }
    assert!(validate_openapi_kubernetes_extensions_exists(&complete_info()).is_ok());
}

#[test]
fn extract_openapi_info_reads_every_extension() {
    let info = extract_openapi_info(&complete_info()).unwrap();
    assert_eq!(info.api_group, "example.com");
    assert_eq!(info.api_version, "v1");
    assert_eq!(info.resource_ref, "uuid");
    assert_eq!(info.include_tags, vec!["cats", "dogs"]);
    assert_eq!(info.example_metadata_spec_field_ref, "name");
}

#[test]
fn extract_extension_rejects_a_non_string() {
    let info = vec![("x-a".to_string(), ExtensionValue::Other)];
    match extract_extension(&info, "x-a") {
        Err(AppError::ConfigError(m)) => assert_eq!(m, "x-a is not a string"),
        _ => panic!("expected a configuration error"),
    }
    match extract_extension(&info, "x-b") {
        Err(AppError::MissingRequiredExtension(k)) => assert_eq!(k, "x-b"),
        _ => panic!("expected a missing extension"),
    }
    assert_eq!(extract_extension(&vec![string("x-a", "v")], "x-a").unwrap(), "v");
}

#[test]
fn extract_extension_array_rejects_non_arrays_and_non_strings() {
    let info = vec![
        ("x-s".to_string(), ExtensionValue::String("a".to_string())),
        ("x-mixed".to_string(), ExtensionValue::Array(vec![Some("a".to_string()), None])),
        ("x-ok".to_string(), ExtensionValue::Array(vec![Some("a".to_string())])),
    ];
    match extract_extension_array(&info, "x-s") {
        Err(AppError::ConfigError(m)) => assert_eq!(m, "x-s is not an array"),
        _ => panic!("expected a configuration error"),
    }
    match extract_extension_array(&info, "x-mixed") {
        Err(AppError::ConfigError(m)) => assert_eq!(m, "x-mixed is not an array of strings"),
        _ => panic!("expected a configuration error"),
    }
    assert_eq!(extract_extension_array(&info, "x-ok").unwrap(), vec!["a"]);
    match extract_extension_array(&info, "x-none") {
        Err(AppError::MissingRequiredExtension(k)) => assert_eq!(k, "x-none"),
        _ => panic!("expected a missing extension"),
    }
}

#[test]
fn find_entry_returns_the_first_match() {
    let entries = vec![
        ("a".to_string(), 1u8),
        ("b".to_string(), 2u8),
        ("a".to_string(), 3u8),
    ];
    assert_eq!(find_entry(&entries, "a"), Some(0));
    assert_eq!(find_entry(&entries, "b"), Some(1));
    assert_eq!(find_entry(&entries, "c"), None);
}
