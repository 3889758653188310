use kopgen::commands::generate::{
    add_controller_to_modfile, add_type_to_modfile, controller_ignore_line, generate_crdgen_file,
    generate_lib, generate_main_file, generate_rbac_files, generate_resource_from_map,
    generate_types, generation_steps, get_controller_attributes_for_operation,
    get_fields_for_type, group_controllers, indent_yaml, project_directories,
    schema_resource_names, write_example_manifest, GenerationStep,
};
use kopgen::commands::generate::{generate_manifest_from_example, ExampleValue};
use kopgen::document::{example_resources, info_from_text, json_path, read_openapi_spec};
use kopgen::errors::AppError;
use kopgen::openapi::{ObjectSchema, PathOperation, PathItem, PropertyKind, ComponentSchema};

fn strings(v: &[&str]) -> Vec<String> {
    v.iter().map(|s| s.to_string()).collect()
}

/// `User`: an object with `id` (integer, required) and `name` (string).
fn user_schemas() -> Vec<(String, ComponentSchema)> {
    vec![(
        "User".to_string(),
        ComponentSchema::Object(ObjectSchema {
            properties: vec![
                ("id".to_string(), PropertyKind::Integer),
                ("name".to_string(), PropertyKind::String),
            ],
            required: strings(&["id"]),
        }),
    )]
}

fn fields_of(v: &[kopgen::templates::Field]) -> Vec<(String, String)> {
    v.iter().map(|f| (f.pub_name.clone(), f.field_type.clone())).collect()
}

#[test]
fn test_generate_types() {
    // The resource reference is `id`, so only `name` becomes a field.
    let files = generate_types("src/types", &Vec::new(), &user_schemas(), "id");
    assert_eq!(files.len(), 1);
    let plan = files[0].plan.as_ref().expect("Type file was not created");
    assert_eq!(plan.file_name, "user.rs");
    assert_eq!(plan.template.struct_name, "User");
    assert_eq!(fields_of(&plan.template.fields), vec![("name".to_string(), "Option<String>".to_string())]);
    assert_eq!(files[0].mod_line, Some("pub mod user;".to_string()));
}

#[test]
fn test_generate_types_success() {
    let files = generate_types("src/types", &Vec::new(), &user_schemas(), "uuid");
    let plan = files[0].plan.as_ref().expect("Type file was not created.");
    assert_eq!(plan.template.struct_name, "User");
    assert_eq!(plan.template.tag_name, "users");
    assert_eq!(plan.template.group_name, "example.com");
    assert_eq!(plan.template.api_version, "v1");
    assert_eq!(plan.template.reference_id, "uuid");
    assert_eq!(
        fields_of(&plan.template.fields),
        vec![
            ("id".to_string(), "i32".to_string()),
            ("name".to_string(), "Option<String>".to_string())
        ]
    );
}

#[test]
fn test_parsing_json_spec() {
    let openapi_json = r#"{
    "openapi": "3.0.0",
    "info": {
        "title": "Test API",
        "version": "1.0.0",
        "x-kubernetes-operator-api-group": "testgroup",
        "x-kubernetes-operator-api-version": "v1",
        "x-kubernetes-operator-resource-ref": "uuid",
        "x-kubernetes-operator-include-tags": ["user"],
        "x-kubernetes-operator-example-metadata-spec-field-ref": "metadata"
    },
    "paths": {},
    "components": {
        "schemas": {
            "User": {
                "type": "object",
                "properties": {
                    "id": { "type": "integer", "format": "int64" },
                    "name": { "type": "string" },
                    "email": { "type": "string", "format": "email" }
                },
                "required": ["id"]
            }
        }
    }
}"#;
    let document = read_openapi_spec("openapi.json", openapi_json).expect("the spec parses");
    let schemas = document.schemas.expect("No components found in OpenAPI spec");
    let files = generate_types("src/types", &Vec::new(), &schemas, "id");
    let plan = files[0].plan.as_ref().expect("Type file was not created.");
    assert_eq!(plan.template.struct_name, "User");
    assert_eq!(
        fields_of(&plan.template.fields),
        vec![
            ("name".to_string(), "Option<String>".to_string()),
            ("email".to_string(), "Option<String>".to_string())
        ]
    );
}

#[test]
fn test_invalid_json_spec() {
    let openapi_json = r#"{
    "openapi": "3.0.0",
    "info": {
        "title": "Test API",
        "version": "1.0.0",
        "x-kubernetes-operator-api-group": "testgroup",
        "x-kubernetes-operator-api-version": "v1",
        "x-kubernetes-operator-resource-ref": "uuid",
        "x-kubernetes-operator-status-ref": "status",
        "x-kubernetes-operator-include-tags": ["user"],
        "x-kubernetes-operator-example-metadata-spec-field-ref": "metadata"
    },
    "paths": {},
    "components": {
        "schemas": {
            "User": {
                "type": "object",
                "properties": {
                    "id": {
                        "type": "integer",
                        "format": "int64"
                    },
                    "name": {
                        "type": "string"
                    },
                    "email": {
                        "type": "string",
                        "format": "email"
                    }
                },
                "required": ["id"]
            }
        }
    }
"#;
    let openapi = read_openapi_spec("invalid_openapi.json", openapi_json);
    assert!(openapi.is_err(), "Expected error due to invalid JSON spec.");
    if let Err(e) = openapi {
        match e {
            AppError::JsonError(_) => (),
            _ => panic!("Expected AppError::JsonError, got {:?}", e),
        }
    }
    let whole = format!("{}}}", openapi_json);
    assert!(read_openapi_spec("openapi.json", &whole).is_ok());
}

#[test]
fn generate_command_test_execute_invalid_openapi_spec() {
    let openapi_yaml = "---\ninvalid_yaml: [unclosed_list\n";
    let result = read_openapi_spec("invalid_openapi.yaml", openapi_yaml);
    assert!(result.is_err(), "Expected execution to fail due to invalid OpenAPI spec.");
    assert!(matches!(result, Err(AppError::YamlError(_))));
    assert!(matches!(info_from_text("invalid_openapi.yaml", openapi_yaml), Err(AppError::YamlError(_))));
}

#[test]
fn a_json_path_is_read_as_json_and_another_as_yaml() {
    let broken = r#"{ "openapi": "3.0.0", "info": { "title": "Test API", "version": "1.0.0" }, "paths": {} "#;
    assert!(matches!(read_openapi_spec("spec.json", broken), Err(AppError::JsonError(_))));
    assert!(matches!(read_openapi_spec("spec.yaml", broken), Err(AppError::YamlError(_))));
    assert!(matches!(info_from_text("spec.json", broken), Err(AppError::JsonError(_))));
    assert!(json_path("a/b/spec.json"));
    assert!(!json_path("spec.jsonx"));
    assert!(!json_path("json"));
}

#[test]
fn settings_of_a_spec_with_a_wrong_extension() {
    let spec = "openapi: 3.0.0\ninfo:\n  title: t\n  version: v\n  x-kubernetes-operator-api-group: g\n  x-kubernetes-operator-api-version: [v1]\n  x-kubernetes-operator-resource-ref: uuid\n  x-kubernetes-operator-include-tags: cats\n  x-kubernetes-operator-example-metadata-spec-field-ref: name\npaths: {}\n";
    match info_from_text("spec.yaml", spec) {
        Err(AppError::ConfigError(m)) => assert_eq!(m, "x-kubernetes-operator-api-version is not a string"),
        other => panic!("unexpected {:?}", other),
    }
    let missing = "openapi: 3.0.0\ninfo:\n  title: t\n  version: v\npaths: {}\n";
    match info_from_text("spec.yaml", missing) {
        Err(AppError::MissingRequiredExtension(k)) => assert_eq!(k, "x-kubernetes-operator-api-group"),
        other => panic!("unexpected {:?}", other),
    }
}

#[test]
fn a_yaml_spec_is_read_into_its_parts() {
    let spec = r#"---
openapi: 3.0.0
info:
  title: Pets
  version: 1.0.0
  x-kubernetes-operator-api-group: example.com
  x-kubernetes-operator-api-version: v1
  x-kubernetes-operator-resource-ref: uuid
  x-kubernetes-operator-include-tags:
    - cats
  x-kubernetes-operator-example-metadata-spec-field-ref: name
paths:
  /cats:
    post:
      tags: [cats]
      operationId: createCat
      summary: Create a cat
      responses: {}
components:
  schemas:
    Cat:
      type: object
      properties:
        uuid:
          type: string
        name:
          type: string
        age:
          type: integer
      required: [name]
  examples:
    cats:
      value:
        - uuid: abc
          name: Whiskers
          age: 3
"#;
    let info = info_from_text("spec.yaml", spec).unwrap();
    assert_eq!(info.api_group, "example.com");
    assert_eq!(info.include_tags, vec!["cats"]);
    let document = read_openapi_spec("spec.yaml", spec).unwrap();
    let schemas = document.schemas.unwrap();
    let fields = get_fields_for_type(&schemas, "Cat", "uuid").unwrap();
    assert_eq!(
        fields_of(&fields),
        vec![("name".to_string(), "String".to_string()), ("age".to_string(), "Option<i32>".to_string())]
    );
    let groups = group_controllers(&document.paths, &info.include_tags);
    assert_eq!(groups[0].0, "cats");
    assert_eq!(groups[0].1[0].operation_id, "create_cat");
    let (name, example) = document.examples.unwrap().into_iter().next().unwrap();
    assert_eq!(name, "cats");
    let drafts = generate_manifest_from_example(&info.example_metadata_spec_field_ref, example, &info.resource_ref);
    assert_eq!(drafts.len(), 1);
    assert_eq!(drafts[0].metadata_name, "whiskers");
    let resources = example_resources(&name, &drafts, &info.api_group, &info.api_version);
    assert_eq!(resources[0].kind, "Cat");
    assert_eq!(resources[0].metadata.name, "example-whiskers");
    assert_eq!(resources[0].spec, "  age: 3\n  name: Whiskers");
}

#[test]
fn ignored_and_referenced_types_are_not_planned() {
    let mut schemas = user_schemas();
    schemas.push(("Pet".to_string(), ComponentSchema::Reference));
    let ignored = strings(&["src/types/user.rs"]);
    let files = generate_types("src/types", &ignored, &schemas, "id");
    assert!(files[0].plan.is_none());
    assert!(files[1].plan.is_none());
    assert_eq!(files[1].mod_line, None);
}

#[test]
fn fields_cover_every_known_kind() {
    let schemas = vec![(
        "Thing".to_string(),
        ComponentSchema::Object(ObjectSchema {
            properties: vec![
                ("a".to_string(), PropertyKind::Number),
                ("b".to_string(), PropertyKind::Boolean),
                ("c".to_string(), PropertyKind::Array),
                ("d".to_string(), PropertyKind::Reference),
                ("uuid".to_string(), PropertyKind::String),
            ],
            required: strings(&["a", "c"]),
        }),
    )];
    let fields = get_fields_for_type(&schemas, "Thing", "uuid").unwrap();
    assert_eq!(
        fields_of(&fields),
        vec![
            ("a".to_string(), "f64".to_string()),
            ("b".to_string(), "Option<bool>".to_string()),
            ("c".to_string(), "Vec<_>".to_string())
        ]
    );
    match get_fields_for_type(&schemas, "Other", "uuid") {
        Err(AppError::Other(m)) => assert_eq!(m, "Schema not found for type: Other"),
        _ => panic!("expected a missing schema"),
    }
    let other = vec![("S".to_string(), ComponentSchema::Other)];
    assert!(get_fields_for_type(&other, "S", "uuid").unwrap().is_empty());
}

fn op(tags: &[&str], id: Option<&str>, summary: Option<&str>) -> Option<PathOperation> {
    Some(PathOperation {
        tags: strings(tags),
        operation_id: id.map(|s| s.to_string()),
        summary: summary.map(|s| s.to_string()),
    })
}

#[test]
fn controller_attributes_need_an_included_tag() {
    let included = strings(&["cats"]);
    let o = op(&["cats"], Some("createCat"), Some("Create a cat")).unwrap();
    let (tag, a) = get_controller_attributes_for_operation(&o, "post", &included).unwrap();
    assert_eq!(tag, "cats");
    assert_eq!(a.operation_id, "create_cat");
    assert_eq!(a.http_method, "post");
    let other = op(&["dogs"], Some("createDog"), None).unwrap();
    assert!(get_controller_attributes_for_operation(&other, "post", &included).is_none());
}

#[test]
fn operations_are_grouped_by_tag_in_first_appearance() {
    let paths = vec![
        Some(PathItem {
            get: op(&["cats"], Some("getCats"), None),
            post: op(&["cats"], Some("createCat"), None),
            delete: None,
            put: None,
        }),
        None,
        Some(PathItem {
            get: op(&["dogs"], Some("getDog"), None),
            post: None,
            delete: op(&["cats"], Some("deleteCat"), None),
            put: op(&["horses"], Some("updateHorse"), None),
        }),
    ];
    let groups = group_controllers(&paths, &strings(&["dogs", "cats"]));
    let tags: Vec<&str> = groups.iter().map(|g| g.0.as_str()).collect();
    assert_eq!(tags, vec!["cats", "dogs"]);
    let cat_ops: Vec<&str> = groups[0].1.iter().map(|a| a.operation_id.as_str()).collect();
    assert_eq!(cat_ops, vec!["get_cats", "create_cat", "delete_cat"]);
    assert_eq!(groups[1].1.len(), 1);
}

#[test]
fn steps_follow_the_flags() {
    let all = vec![GenerationStep::Lib, GenerationStep::Types, GenerationStep::Controllers, GenerationStep::Rbac, GenerationStep::OperatorDeployment, GenerationStep::Crdgen, GenerationStep::Examples];
    assert_eq!(generation_steps(true, false, false, false, false), all);
    assert_eq!(generation_steps(false, false, false, false, false), all);
    assert_eq!(generation_steps(false, false, true, false, true), vec![GenerationStep::Rbac, GenerationStep::Crdgen, GenerationStep::Examples, GenerationStep::Types]);
    assert_eq!(generation_steps(false, true, false, true, false), vec![GenerationStep::Lib, GenerationStep::Controllers]);
}

#[test]
fn main_file_sorts_controllers_and_singularizes_types() {
    let m = generate_main_file(
        "operator",
        &Vec::new(),
        "example.com",
        "v1",
        &strings(&["horses", "cats", "dogs"]),
        &strings(&["cats", "dogs"]),
    )
    .unwrap();
    assert_eq!(m.controllers, vec!["cats", "dogs", "horses"]);
    assert_eq!(m.types, vec!["cat", "dog"]);
    assert_eq!(m.api_group, "example.com");
    let ignored = strings(&["operator/src/main.rs"]);
    assert!(generate_main_file("operator", &ignored, "g", "v", &Vec::new(), &Vec::new()).is_none());
}

#[test]
fn lib_rbac_and_modfiles() {
    assert!(generate_lib("operator", &Vec::new()));
    assert!(!generate_lib("operator", &strings(&["operator/src/lib.rs"])));
    let (role, cluster_role) = generate_rbac_files(&strings(&["cats"]), "example.com");
    assert_eq!(role.identifiers.api_group, "example.com");
    assert_eq!(cluster_role.identifiers.resources, vec!["cats"]);
    assert_eq!(
        add_type_to_modfile("Cat", "operator/src/types"),
        ("operator/src/types/mod.rs".to_string(), "pub mod cat;".to_string())
    );
    assert_eq!(
        add_controller_to_modfile("operator/src/controllers", "cats"),
        ("operator/src/controllers/mod.rs".to_string(), "pub mod cats;".to_string())
    );
    assert_eq!(controller_ignore_line("Cats"), "operator/src/controllers/cats.rs");
}

#[test]
fn crdgen_entries_are_sorted_and_unique() {
    let main = generate_crdgen_file(&strings(&["horses", "cats", "dogs", "cats"]));
    assert_eq!(
        main.resources,
        vec![
            ("cat".to_string(), "Cat".to_string()),
            ("dog".to_string(), "Dog".to_string()),
            ("horse".to_string(), "Horse".to_string())
        ]
    );
}

#[test]
fn resource_names_are_lowercase_plurals() {
    assert_eq!(schema_resource_names(&user_schemas()), vec!["users"]);
}

#[test]
fn example_resource_from_a_map() {
    let r = generate_resource_from_map("cats", "Whiskers", "name: Whiskers\nage: 3", "example.com", "v1");
    assert_eq!(r.kind, "Cat");
    assert_eq!(r.metadata.name, "example-whiskers");
    assert_eq!(r.api_group, "example.com");
    assert_eq!(r.spec, indent_yaml("name: Whiskers\nage: 3"));
    let (file, example) = write_example_manifest("Cats", vec![r]).unwrap();
    assert!(write_example_manifest("Cats", Vec::new()).is_none());
    assert_eq!(file, "cats.yaml");
    assert_eq!(example.resources.len(), 1);
}

#[test]
fn project_directories_are_under_the_base() {
    let d = project_directories("out");
    assert_eq!(d.operator, "out/operator");
    assert_eq!(d.types, "out/operator/src/types");
    assert_eq!(d.examples, "out/manifests/examples");
}

#[test]
fn a_referenced_example_makes_no_resource() {
    let spec = r#"---
openapi: 3.0.0
info:
  title: Pets
  version: 1.0.0
paths: {}
components:
  examples:
    cats:
      $ref: '#/components/examples/other'
"#;
    let document = read_openapi_spec("spec.yaml", spec).unwrap();
    let examples = document.examples.unwrap();
    assert_eq!(examples.len(), 1);
    assert!(matches!(examples[0].1, ExampleValue::Reference));
    let (_, example) = examples.into_iter().next().unwrap();
    assert!(generate_manifest_from_example("name", example, "uuid").is_empty());
    let without = "openapi: 3.0.0\ninfo:\n  title: t\n  version: v\npaths: {}\n";
    let document = read_openapi_spec("spec.yaml", without).unwrap();
    assert!(document.examples.is_none());
    assert!(document.schemas.is_none());
}
