use kopgen::operator::{
    add_event, add_finalizer, check_any_crd_from_group, crd_name_or_default, deploy_crd,
    remove_finalizer, should_install_crds, CrdDeployStep,
};
use kopgen::types::ObjectMeta;

fn strings(v: &[&str]) -> Vec<String> {
    v.iter().map(|s| s.to_string()).collect()
}

fn meta(name: &str) -> ObjectMeta {
    ObjectMeta {
        name: Some(name.to_string()),
        namespace: Some("default".to_string()),
        uid: Some("u-1".to_string()),
        generation: Some(1),
        deletion_timestamp: None,
        finalizers: None,
    }
}

#[test]
fn test_add_finalizer() {
    let mut m = meta("test-cat");
    assert!(add_finalizer(&mut m.finalizers));
    assert_eq!(m.finalizers, Some(strings(&["finalizers.example.com"])));
}

#[test]
fn adding_the_finalizer_twice_changes_nothing() {
    let mut f = Some(strings(&["other"]));
    assert!(add_finalizer(&mut f));
    let once = f.clone();
    assert!(!add_finalizer(&mut f));
    assert_eq!(f, once);
    assert_eq!(f, Some(strings(&["other", "finalizers.example.com"])));
}

#[test]
fn removing_the_finalizer_keeps_the_others_in_order() {
    let mut f = Some(strings(&["a", "finalizers.example.com", "b", "finalizers.example.com"]));
    assert!(remove_finalizer(&mut f));
    assert_eq!(f, Some(strings(&["a", "b"])));
    assert!(!remove_finalizer(&mut f));
    let mut none: Option<Vec<String>> = None;
    assert!(!remove_finalizer(&mut none));
    assert_eq!(none, None);
}

#[test]
fn removing_undoes_adding() {
    let mut f = Some(strings(&["x"]));
    add_finalizer(&mut f);
    remove_finalizer(&mut f);
    assert_eq!(f, Some(strings(&["x"])));
}

#[test]
fn events_name_the_resource_and_the_time() {
    let e = add_event("Cat".to_string(), &meta("whiskers"), "Normal", "cat", "Cat created", "2024-01-01T00:00:00Z");
    assert_eq!(e.name, "whiskers-2024-01-01T00:00:00Z");
    assert_eq!(e.namespace, "default");
    assert_eq!(e.involved_kind, "Cat");
    assert_eq!(e.involved_name, "whiskers");
    assert_eq!(e.involved_namespace, Some("default".to_string()));
    assert_eq!(e.involved_uid, Some("u-1".to_string()));
    assert_eq!(e.reason, "Normal");
    assert_eq!(e.message, "Cat created");
    assert_eq!(e.type_, "Normal");
    assert_eq!(e.component, "cat");
    let mut m = meta("w");
    m.namespace = None;
    assert_eq!(add_event("Cat".to_string(), &m, "r", "f", "m", "t").namespace, "");
}

#[test]
fn crds_are_installed_when_the_variable_says_true() {
    assert!(should_install_crds(&Some("true".to_string())));
    assert!(should_install_crds(&Some("TRUE".to_string())));
    assert!(!should_install_crds(&Some("yes".to_string())));
    assert!(!should_install_crds(&None));
}

#[test]
fn crd_deployment_replaces_an_existing_crd() {
    assert_eq!(deploy_crd(Ok(())), CrdDeployStep::Created);
    assert_eq!(deploy_crd(Err(Some(409))), CrdDeployStep::Replace);
    assert_eq!(deploy_crd(Err(Some(500))), CrdDeployStep::Failed);
    assert_eq!(deploy_crd(Err(None)), CrdDeployStep::Failed);
    assert_eq!(crd_name_or_default(&None), "Unnamed CRD");
    assert_eq!(crd_name_or_default(&Some("cats.example.com".to_string())), "cats.example.com");
    let groups = strings(&["example.com", "other.io"]);
    assert!(check_any_crd_from_group(&groups, "example.com"));
    assert!(!check_any_crd_from_group(&groups, "missing.io"));
}
