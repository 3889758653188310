use kopgen::controllers::horse_watch::{
    check_for_drift, convert_dto_to_kube_type, convert_kube_type_to_dto, default_status,
    drift_update, handle, handle_create_horse, handle_delete_horse_by_id,
    handle_update_horse_by_id, record_condition, record_created, HorseAction, OperatorHorse,
    OperatorHorseStatus,
};
use kopgen::controllers::{ConditionKind, WatchEventKind};
use kopgen::types::dto;
use kopgen::types::horse::HorseSpec;
use kopgen::types::ObjectMeta;

fn horse(status: Option<OperatorHorseStatus>, deleting: bool) -> OperatorHorse {
    OperatorHorse {
        metadata: ObjectMeta {
            name: Some("spirit".to_string()),
            namespace: Some("default".to_string()),
            uid: None,
            generation: Some(5),
            deletion_timestamp: if deleting { Some("now".to_string()) } else { None },
            finalizers: None,
        },
        spec: HorseSpec { name: "Spirit".to_string(), breed: "Mustang".to_string(), age: 7 },
        status,
    }
}

fn status(uuid: Option<&str>) -> OperatorHorseStatus {
    OperatorHorseStatus { uuid: uuid.map(|u| u.to_string()), conditions: Vec::new(), observed_generation: None }
}

#[test]
fn horse_events_lead_to_their_actions() {
    let p = handle(WatchEventKind::Added, &horse(None, false));
    assert_eq!((p.add_default_status, p.progress, p.action), (true, Some(ConditionKind::Creating), HorseAction::Create));
    let p = handle(WatchEventKind::Added, &horse(Some(status(Some("id"))), false));
    assert_eq!((p.add_default_status, p.progress, p.action), (false, None, HorseAction::CheckDrift));
    let p = handle(WatchEventKind::Added, &horse(None, true));
    assert_eq!((p.add_default_status, p.progress, p.action), (true, Some(ConditionKind::Deleting), HorseAction::Delete));
    let p = handle(WatchEventKind::Modified, &horse(Some(status(Some("id"))), false));
    assert_eq!((p.add_default_status, p.progress, p.action), (false, Some(ConditionKind::Updating), HorseAction::Update));
    for e in [WatchEventKind::Deleted, WatchEventKind::Bookmark, WatchEventKind::Error] {
        assert_eq!(handle(e, &horse(None, false)).action, HorseAction::Ignore);
    }
}

#[test]
fn a_horse_converts_to_its_remote_object_and_back() {
    let h = horse(Some(status(Some("id-9"))), false);
    let d = convert_kube_type_to_dto(&h);
    assert_eq!(d.uuid, Some("id-9".to_string()));
    assert_eq!((d.name.as_str(), d.breed.as_str(), d.age), ("Spirit", "Mustang", 7));
    let spec = convert_dto_to_kube_type(d);
    assert_eq!((spec.name.as_str(), spec.breed.as_str(), spec.age), ("Spirit", "Mustang", 7));
    assert_eq!(handle_create_horse(&horse(None, false)).uuid, None);
}

#[test]
fn statuses_record_conditions_in_order() {
    let s = default_status();
    assert!(s.uuid.is_none() && s.conditions.is_empty() && s.observed_generation.is_none());
    let s = record_condition(Some(s), ConditionKind::Creating, Some(5), "t1").unwrap();
    let s = record_created(Some(s), "remote-1".to_string(), Some(5), "t2").unwrap();
    assert_eq!(s.uuid, Some("remote-1".to_string()));
    assert_eq!(s.conditions.len(), 2);
    assert_eq!(s.conditions[0].type_, "ProgressingCreating");
    assert_eq!(s.conditions[1].type_, "AvailableCreated");
    assert_eq!(s.observed_generation, Some(5));
    assert!(record_condition(None, ConditionKind::Updated, None, "t").is_none());
}

#[test]
fn drift_deletes_and_updates_go_by_the_identifier() {
    let h = horse(Some(status(Some("id"))), false);
    assert_eq!(check_for_drift(&h), Some("id".to_string()));
    assert_eq!(check_for_drift(&horse(None, false)), None);
    let same = dto::Horse { uuid: None, name: "Spirit".to_string(), breed: "Mustang".to_string(), age: 7 };
    assert!(drift_update(&h, same).is_none());
    let older = dto::Horse { uuid: None, name: "Spirit".to_string(), breed: "Mustang".to_string(), age: 6 };
    assert_eq!(drift_update(&h, older).unwrap().age, 7);
    assert_eq!(handle_delete_horse_by_id(&h), Some("id".to_string()));
    assert_eq!(handle_delete_horse_by_id(&horse(Some(status(Some(""))), true)), None);
    assert_eq!(handle_delete_horse_by_id(&horse(None, true)), None);
    let (u, d) = handle_update_horse_by_id(&h).unwrap();
    assert_eq!((u.as_str(), d.name.as_str()), ("id", "Spirit"));
    assert!(handle_update_horse_by_id(&horse(None, false)).is_none());
}
