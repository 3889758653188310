use kopgen::controllers::cat::handle_cat;
use kopgen::controllers::cats::{
    self, add_default_status, convert_dto_to_kube_type, convert_kube_type_to_dto, default_status,
    drift_update, handle_create_cat, handle_delete_cat_by_id, handle_update_cat_by_id,
    reconcile, record_condition, record_created, CatAction, REQUEUE_AFTER_IN_SEC,
};
use kopgen::controllers::cats::{convert_string_to_uuid, handle_delete, handle_update};
use kopgen::controllers::dog::handle_dog;
use kopgen::controllers::horse::handle_horse;
use kopgen::controllers::{
    create_condition, name_or_default, report_outcome, resource_message, ConditionKind,
    RemoteCall, SyncStep, WatchEventKind,
};
use kopgen::controllers::{dogs, horses};
use kopgen::types::cat::{Cat, CatSpec, CatStatus};
use kopgen::types::dog::{Dog, DogSpec, DogStatus};
use kopgen::types::dto;
use kopgen::types::horse::{Horse, HorseSpec};
use kopgen::types::ObjectMeta;

fn meta(deleting: bool) -> ObjectMeta {
    ObjectMeta {
        name: Some("whiskers".to_string()),
        namespace: Some("default".to_string()),
        uid: None,
        generation: Some(2),
        deletion_timestamp: if deleting { Some("now".to_string()) } else { None },
        finalizers: None,
    }
}

fn cat(status: Option<CatStatus>, deleting: bool) -> Cat {
    Cat {
        metadata: meta(deleting),
        spec: CatSpec { name: "Whiskers".to_string(), breed: "Tabby".to_string(), age: 3 },
        status,
    }
}

fn cat_status(uuid: Option<&str>, observed: Option<i64>) -> CatStatus {
    CatStatus { uuid: uuid.map(|u| u.to_string()), conditions: Vec::new(), observed_generation: observed }
}

#[test]
fn cat_round_trips_through_its_remote_object() {
    let c = cat(Some(cat_status(Some("id-1"), None)), false);
    let d = convert_kube_type_to_dto(c);
    assert_eq!(d.uuid, Some("id-1".to_string()));
    assert_eq!((d.name.as_str(), d.breed.as_str(), d.age), ("Whiskers", "Tabby", 3));
    let spec = convert_dto_to_kube_type(d);
    assert_eq!((spec.name.as_str(), spec.breed.as_str(), spec.age), ("Whiskers", "Tabby", 3));
    assert_eq!(convert_kube_type_to_dto(cat(None, false)).uuid, None);
}

#[test]
fn cat_events_lead_to_their_actions() {
    let new_cat = cat(None, false);
    let p = cats::handle(WatchEventKind::Added, &new_cat);
    assert!(p.add_default_status);
    assert_eq!(p.progress, Some(ConditionKind::Creating));
    assert_eq!(p.action, CatAction::Create);

    let known = cat(Some(cat_status(Some("id"), None)), false);
    let p = cats::handle(WatchEventKind::Added, &known);
    assert_eq!((p.add_default_status, p.progress, p.action), (false, None, CatAction::CheckDrift));

    let deleting = cat(Some(cat_status(Some("id"), None)), true);
    let p = cats::handle(WatchEventKind::Added, &deleting);
    assert_eq!((p.progress, p.action), (Some(ConditionKind::Deleting), CatAction::Delete));

    let p = cats::handle(WatchEventKind::Modified, &known);
    assert_eq!((p.progress, p.action), (Some(ConditionKind::Updating), CatAction::Update));
    for e in [WatchEventKind::Deleted, WatchEventKind::Bookmark, WatchEventKind::Error] {
        assert_eq!(cats::handle(e, &known).action, CatAction::Ignore);
    }
}

#[test]
fn conditions_carry_the_stage_texts() {
    let c = create_condition(ConditionKind::Deleted, Some(4), "t0");
    assert_eq!(c.status, "Deleted");
    assert_eq!(c.type_, "UnavailableDeleted");
    assert_eq!(c.reason, "Deleted the resource");
    assert_eq!(c.message, "Resource has been deleted");
    assert_eq!(c.last_transition_time, "t0");
    assert_eq!(c.observed_generation, Some(4));
    let c = create_condition(ConditionKind::Creating, None, "t1");
    assert_eq!((c.status.as_str(), c.type_.as_str()), ("Creating", "ProgressingCreating"));
    let c = create_condition(ConditionKind::Updated, None, "t1");
    assert_eq!(c.message, "Resource has been updated");
}

#[test]
fn recording_a_condition_appends_it_and_observes_the_generation() {
    let s = record_condition(Some(cat_status(Some("id"), None)), ConditionKind::Updating, Some(2), "t").unwrap();
    assert_eq!(s.conditions.len(), 1);
    assert_eq!(s.conditions[0].status, "Updating");
    assert_eq!(s.observed_generation, Some(2));
    assert_eq!(s.uuid, Some("id".to_string()));
    let s = record_condition(Some(s), ConditionKind::Updated, Some(3), "u").unwrap();
    assert_eq!(s.conditions.len(), 2);
    assert_eq!(s.conditions[1].status, "Updated");
    assert!(record_condition(None, ConditionKind::Created, None, "t").is_none());
    let s = record_created(Some(default_status()), "new-id".to_string(), Some(1), "t").unwrap();
    assert_eq!(s.uuid, Some("new-id".to_string()));
    assert_eq!(s.conditions[0].type_, "AvailableCreated");
}

#[test]
fn drift_is_pushed_only_where_the_remote_differs() {
    let c = cat(Some(cat_status(Some("id"), None)), false);
    let same = dto::Cat { uuid: Some("other".to_string()), name: "Whiskers".to_string(), breed: "Tabby".to_string(), age: 3 };
    assert!(drift_update(&c, same).is_none());
    let older = dto::Cat { uuid: Some("id".to_string()), name: "Whiskers".to_string(), breed: "Tabby".to_string(), age: 2 };
    let push = drift_update(&c, older).unwrap();
    assert_eq!(push.age, 3);
    assert_eq!(push.uuid, Some("id".to_string()));
    assert_eq!(cats::check_for_drift(&c), None);
    assert_eq!(cats::check_for_drift(&cat(None, false)), None);
    let with_uuid = cat(Some(cat_status(Some("67E55044-10B1-426F-9247-BB680E5FE0C8"), None)), false);
    assert_eq!(
        cats::check_for_drift(&with_uuid),
        Some("67e55044-10b1-426f-9247-bb680e5fe0c8".to_string())
    );
}

#[test]
fn deletes_and_updates_need_an_identifier() {
    assert_eq!(handle_delete_cat_by_id(&cat(Some(cat_status(Some("id"), None)), true)), Some("id".to_string()));
    assert_eq!(handle_delete_cat_by_id(&cat(Some(cat_status(Some(""), None)), true)), None);
    assert_eq!(handle_delete_cat_by_id(&cat(None, true)), None);
    let (u, d) = handle_update_cat_by_id(&cat(Some(cat_status(Some("id"), None)), false)).unwrap();
    assert_eq!(u, "id");
    assert_eq!(d.name, "Whiskers");
    assert!(handle_update_cat_by_id(&cat(None, false)).is_none());
    assert_eq!(handle_create_cat(&cat(None, false)).breed, "Tabby");
    assert_eq!(name_or_default(&meta(false)), "whiskers");
}

#[test]
fn reconciling_creates_updates_and_requeues() {
    let p = reconcile(&cat(None, false));
    assert!(p.add_default_status && p.create && !p.update && !p.delete);
    assert_eq!(p.requeue_after_secs, REQUEUE_AFTER_IN_SEC);
    assert_eq!(REQUEUE_AFTER_IN_SEC, 30);
    let p = reconcile(&cat(Some(cat_status(Some("id"), Some(1))), false));
    assert!(!p.create && p.update);
    let p = reconcile(&cat(Some(cat_status(Some("id"), Some(2))), true));
    assert!(!p.create && !p.update && p.delete);
    let p = reconcile(&cat(Some(cat_status(Some(""), Some(1))), false));
    assert!(p.create && !p.update);
    let mut c = cat(None, false);
    add_default_status(&mut c);
    let s = c.status.unwrap();
    assert_eq!((s.uuid, s.conditions.len(), s.observed_generation), (None, 0, Some(0)));
}

fn dog(uuid: Option<&str>, has_status: bool, deleting: bool) -> Dog {
    Dog {
        metadata: meta(deleting),
        spec: DogSpec { name: "Rex".to_string(), breed: "Lab".to_string(), age: 5 },
        status: if has_status { Some(DogStatus { uuid: uuid.map(|u| u.to_string()) }) } else { None },
    }
}

#[test]
fn dog_events_lead_to_their_steps() {
    let p = dogs::handle(WatchEventKind::Added, &dog(None, false, false));
    assert_eq!((p.add_default_status, p.step), (true, SyncStep::Create));
    let p = dogs::handle(WatchEventKind::Added, &dog(Some("id"), true, false));
    assert_eq!((p.add_default_status, p.step), (false, SyncStep::CheckDrift));
    let p = dogs::handle(WatchEventKind::Added, &dog(Some("id"), true, true));
    assert_eq!(p.step, SyncStep::Delete);
    let p = dogs::handle(WatchEventKind::Modified, &dog(None, true, false));
    assert_eq!(p.step, SyncStep::Missing);
    let p = dogs::handle(WatchEventKind::Modified, &dog(Some("id"), true, false));
    assert_eq!(p.step, SyncStep::Compare);
    assert_eq!(dogs::handle(WatchEventKind::Bookmark, &dog(None, true, false)).step, SyncStep::Ignore);
}

#[test]
fn dog_drift_compares_every_field() {
    let d = dog(Some("id"), true, false);
    let same = dto::Dog { uuid: Some("id".to_string()), name: "Rex".to_string(), breed: "Lab".to_string(), age: 5 };
    assert!(dogs::drift_update(&d, &same).is_none());
    let other_id = dto::Dog { uuid: Some("x".to_string()), ..same.clone() };
    assert_eq!(dogs::drift_update(&d, &other_id).unwrap().uuid, Some("id".to_string()));
    assert_eq!(dogs::handle_deleted(&d), Some("id".to_string()));
    assert_eq!(dogs::check_for_drift(&dog(None, false, false)), None);
    let mut d = dog(None, true, false);
    dogs::change_status(&mut d, "new".to_string());
    assert_eq!(d.status.unwrap().uuid, Some("new".to_string()));
    assert_eq!(dogs::convert_to_dto(dog(Some("id"), true, false)).name, "Rex");
}

#[test]
fn horse_spec_drift_ignores_the_identifier() {
    let h = Horse {
        metadata: meta(false),
        spec: HorseSpec { name: "Bolt".to_string(), breed: "Arab".to_string(), age: 7 },
        status: None,
    };
    let remote = dto::Horse { uuid: Some("id".to_string()), name: "Bolt".to_string(), breed: "Arab".to_string(), age: 7 };
    assert!(!horses::spec_drifted(&h, remote.clone()));
    assert!(horses::drift_update(&h, &remote).is_some());
    let spec = horses::convert_dto_to_kube_type(remote);
    assert_eq!(spec.age, 7);
    let older = dto::Horse { uuid: None, name: "Bolt".to_string(), breed: "Arab".to_string(), age: 6 };
    assert!(horses::spec_drifted(&h, older));
    assert_eq!(horses::convert_kube_type_to_dto(h).uuid, None);
}

#[test]
fn event_reporting_controllers_choose_their_calls() {
    let id = Some("id".to_string());
    assert_eq!(handle_cat(WatchEventKind::Added, false, &None), RemoteCall::Create);
    assert_eq!(handle_cat(WatchEventKind::Added, true, &id), RemoteCall::Delete);
    assert_eq!(handle_cat(WatchEventKind::Modified, false, &None), RemoteCall::UpdateWithoutId);
    assert_eq!(handle_cat(WatchEventKind::Deleted, false, &None), RemoteCall::DeleteWithoutId);
    assert_eq!(handle_cat(WatchEventKind::Bookmark, false, &id), RemoteCall::Nothing);
    assert_eq!(handle_horse(WatchEventKind::Added, false, &id), RemoteCall::Nothing);
    assert_eq!(handle_horse(WatchEventKind::Added, false, &None), RemoteCall::Create);
    assert_eq!(handle_horse(WatchEventKind::Modified, true, &id), RemoteCall::Delete);
    assert_eq!(handle_horse(WatchEventKind::Deleted, false, &id), RemoteCall::Nothing);
    let p = handle_dog(WatchEventKind::Modified, false, &id);
    assert_eq!(p.call, RemoteCall::Update);
    assert_eq!(p.recorded, Some(("Modified".to_string(), "Dog Resource Modified Remotely".to_string())));
    let p = handle_dog(WatchEventKind::Error, false, &id);
    assert_eq!((p.call, p.recorded), (RemoteCall::Nothing, None));
}

#[test]
fn outcome_events_describe_the_call() {
    assert_eq!(
        report_outcome(RemoteCall::Create, true, "Cat", "whiskers"),
        Some(("Normal".to_string(), "Cat whiskers created remotely".to_string()))
    );
    assert_eq!(
        report_outcome(RemoteCall::Delete, false, "Cat", "whiskers"),
        Some(("Error".to_string(), "Failed to delete Cat whiskers remotely".to_string()))
    );
    assert_eq!(
        report_outcome(RemoteCall::UpdateWithoutId, true, "Horse", "bolt"),
        Some(("Error".to_string(), "Failed to update Horse bolt".to_string()))
    );
    assert_eq!(report_outcome(RemoteCall::Nothing, true, "Cat", "w"), None);
    assert_eq!(resource_message("Horse", "bolt", "created"), "Horse bolt created");
}

#[test]
fn dog_and_horse_handlers_split_new_and_changed_resources() {
    let p = dogs::handle_added(&dog(Some("id"), true, false));
    assert_eq!(p.step, SyncStep::CheckDrift);
    let p = dogs::handle_modified(&dog(None, false, false));
    assert_eq!((p.add_default_status, p.step), (true, SyncStep::Missing));
    let h = Horse {
        metadata: meta(true),
        spec: HorseSpec { name: "Bolt".to_string(), breed: "Arab".to_string(), age: 7 },
        status: None,
    };
    assert_eq!(horses::handle_added(&h).step, SyncStep::Delete);
    assert_eq!(horses::handle_modified(&h).step, SyncStep::Delete);
    assert_eq!(horses::handle(WatchEventKind::Added, &h).step, SyncStep::Delete);
}

#[test]
fn dog_create_and_delete_answers_lead_to_their_follow_ups() {
    let f = dogs::after_create(Ok("id-9".to_string()));
    assert_eq!(f.record_uuid, Some("id-9".to_string()));
    let e = f.event.unwrap();
    assert_eq!((e.reason.as_str(), e.component.as_str(), e.message.as_str()), ("Normal", "dog", "Dog created"));
    assert!(!f.remove_finalizer);
    let f = dogs::after_create(Err(()));
    assert!(f.record_uuid.is_none() && f.event.is_none() && f.remove_finalizer);
    let f = dogs::after_delete("Dog", "rex", true);
    assert!(f.remove_finalizer);
    assert_eq!(f.event.unwrap().message, "Dog deleted");
    let f = dogs::after_delete("Dog", "rex", false);
    assert!(!f.remove_finalizer);
    let e = f.event.unwrap();
    assert_eq!((e.reason.as_str(), e.message.as_str()), ("Error", "Failed to delete Dog rex remotely"));
}

#[test]
fn horse_follow_ups_name_the_horse() {
    let f = horses::after_create("Horse", "bolt", Ok("h-1".to_string()));
    assert_eq!(f.record_uuid, Some("h-1".to_string()));
    let e = f.event.unwrap();
    assert_eq!((e.component.as_str(), e.message.as_str()), ("horse", "Horse bolt created"));
    assert!(horses::after_create("Horse", "bolt", Err(())).remove_finalizer);
    assert_eq!(horses::after_delete("Horse", "bolt", true).event.unwrap().message, "Horse bolt deleted");
    assert!(!horses::after_delete("Horse", "bolt", false).remove_finalizer);
    assert_eq!(horses::after_delete("Horse", "bolt", false).event.unwrap().message, "Failed to delete Horse bolt remotely");
}

#[test]
fn a_live_dog_is_handled_only_where_it_differs() {
    let d = dog(Some("id"), true, false);
    assert!(!dogs::live_differs(&d, &d.clone()));
    let mut live = d.clone();
    live.spec.age = 6;
    assert!(dogs::live_differs(&live, &d));
    let mut live = d.clone();
    live.metadata.finalizers = Some(vec!["finalizers.example.com".to_string()]);
    assert!(dogs::live_differs(&live, &d));
    let mut live = d.clone();
    live.status = None;
    assert!(dogs::live_differs(&live, &d));
}

#[test]
fn reconciling_updates_read_the_identifier_as_a_uuid() {
    let id = "67E55044-10B1-426F-9247-BB680E5FE0C8";
    assert_eq!(
        convert_string_to_uuid(&Some(id.to_string())),
        Some("67e55044-10b1-426f-9247-bb680e5fe0c8".to_string())
    );
    assert_eq!(convert_string_to_uuid(&Some("not-a-uuid".to_string())), None);
    assert_eq!(convert_string_to_uuid(&None), None);
    let c = cat(Some(cat_status(Some(id), None)), false);
    let d = handle_update(&c, id).unwrap();
    assert_eq!(d.uuid, Some("67e55044-10b1-426f-9247-bb680e5fe0c8".to_string()));
    assert_eq!(d.name, "Whiskers");
    match handle_update(&c, "") {
        Err(kopgen::errors::AppError::Other(m)) => assert_eq!(m, "uuid is empty"),
        _ => panic!("expected an error"),
    }
    assert!(handle_delete(id));
    assert!(!handle_delete(""));
}
