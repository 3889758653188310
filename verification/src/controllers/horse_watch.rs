//! The operator's controller of horses, driven by watch events: a horse whose status
//! records conditions, what each event on it leads to, and what each remote answer
//! changes in its status.

use vstd::prelude::*;

use crate::controllers::{
    copy_optional, create_condition, is_condition, ConditionKind, WatchEventKind,
};
use crate::types::dto::Horse as HorseDto;
use crate::types::horse::HorseSpec;
use crate::types::{Condition, ObjectMeta};

verus! {

/// The observed state of a horse that the operator's controller records: the remote
/// identifier, the conditions in the order they were recorded, and the generation last
/// observed.
#[derive(Debug, Clone)]
pub struct OperatorHorseStatus {
    pub uuid: Option<String>,
    pub conditions: Vec<Condition>,
    pub observed_generation: Option<i64>,
}

/// A horse as the operator's controller watches it.
#[derive(Debug, Clone)]
pub struct OperatorHorse {
    pub metadata: ObjectMeta,
    pub spec: HorseSpec,
    pub status: Option<OperatorHorseStatus>,
}

/// The remote identifier a horse's status holds, if any.
pub open spec fn horse_uuid(horse: OperatorHorse) -> Option<Seq<char>> {
    match horse.status {
        Some(s) => s.uuid.deep_view(),
        None => None,
    }
}

/// Two specs describe the same horse.
pub open spec fn same_spec(a: HorseSpec, b: HorseSpec) -> bool {
    &&& a.name@ == b.name@
    &&& a.breed@ == b.breed@
    &&& a.age == b.age
}

/// The remote object describes the horse: its identifier and its spec.
pub open spec fn dto_of(dto: HorseDto, horse: OperatorHorse) -> bool {
    &&& dto.uuid.deep_view() == horse_uuid(horse)
    &&& dto.name@ == horse.spec.name@
    &&& dto.breed@ == horse.spec.breed@
    &&& dto.age == horse.spec.age
}

/// The spec a remote object describes.
pub open spec fn remote_spec(remote: HorseDto) -> HorseSpec {
    HorseSpec { name: remote.name, breed: remote.breed, age: remote.age }
}

/// The remote object of a horse: its identifier and its spec.
pub fn convert_kube_type_to_dto(horse: &OperatorHorse) -> (dto: HorseDto)
    ensures
        dto_of(dto, *horse),
{
    let uuid = match &horse.status {
        Some(status) => copy_optional(&status.uuid),
        None => None,
    };
    HorseDto {
        uuid,
        name: horse.spec.name.clone(),
        breed: horse.spec.breed.clone(),
        age: horse.spec.age,
    }
}

/// The spec a remote object describes.
pub fn convert_dto_to_kube_type(horse: HorseDto) -> (spec: HorseSpec)
    ensures
        same_spec(spec, remote_spec(horse)),
{
    HorseSpec { name: horse.name, breed: horse.breed, age: horse.age }
}

/// What the controller does with a horse after an event.
#[derive(PartialEq, Eq, Structural, Debug, Clone, Copy)]
pub enum HorseAction {
    /// Nothing: a bookmark, a deletion, or an error.
    Ignore,
    /// Delete the horse remotely.
    Delete,
    /// Compare the horse with the remote one and push it where they differ.
    CheckDrift,
    /// Create the horse remotely.
    Create,
    /// Send the horse's spec to the remote one.
    Update,
}

/// The controller's plan for a horse after an event: whether to give it the empty status
/// first, which condition to record before acting, and the action.
#[derive(PartialEq, Eq, Structural, Debug, Clone, Copy)]
pub struct HorseEventPlan {
    pub add_default_status: bool,
    pub progress: Option<ConditionKind>,
    pub action: HorseAction,
}

/// The plan for an event on a horse that has a status or not, whose deletion was
/// requested or not, and that has a remote identifier or not. An added horse is given
/// the empty status where it has none; then it is deleted where its deletion was
/// requested, checked for drift where it has an identifier, and created otherwise. A
/// modified horse is updated remotely. Other events change nothing.
pub open spec fn horse_event_plan(
    event: WatchEventKind,
    has_status: bool,
    deleting: bool,
    has_uuid: bool,
) -> HorseEventPlan {
    match event {
        WatchEventKind::Added => if deleting {
            HorseEventPlan {
                add_default_status: !has_status,
                progress: Some(ConditionKind::Deleting),
                action: HorseAction::Delete,
            }
        } else if has_uuid {
            HorseEventPlan {
                add_default_status: !has_status,
                progress: None,
                action: HorseAction::CheckDrift,
            }
        } else {
            HorseEventPlan {
                add_default_status: !has_status,
                progress: Some(ConditionKind::Creating),
                action: HorseAction::Create,
            }
        },
        WatchEventKind::Modified => HorseEventPlan {
            add_default_status: false,
            progress: Some(ConditionKind::Updating),
            action: HorseAction::Update,
        },
        _ => HorseEventPlan { add_default_status: false, progress: None, action: HorseAction::Ignore },
    }
}

/// Decides what an event on a horse leads to.
pub fn handle(event: WatchEventKind, horse: &OperatorHorse) -> (plan: HorseEventPlan)
    ensures
        plan == horse_event_plan(
            event,
            horse.status is Some,
            horse.metadata.deletion_timestamp is Some,
            horse_uuid(*horse) is Some,
        ),
{
    let has_status = horse.status.is_some();
    let deleting = horse.metadata.deletion_timestamp.is_some();
    let has_uuid = match &horse.status {
        Some(s) => s.uuid.is_some(),
        None => false,
    };
    match event {
        WatchEventKind::Added => {
            let progress = if deleting {
                Some(ConditionKind::Deleting)
            } else if has_uuid {
                None
            } else {
                Some(ConditionKind::Creating)
            };
            let action = if deleting {
                HorseAction::Delete
            } else if has_uuid {
                HorseAction::CheckDrift
            } else {
                HorseAction::Create
            };
            HorseEventPlan { add_default_status: !has_status, progress, action }
        },
        WatchEventKind::Modified => HorseEventPlan {
            add_default_status: false,
            progress: Some(ConditionKind::Updating),
            action: HorseAction::Update,
        },
        _ => HorseEventPlan { add_default_status: false, progress: None, action: HorseAction::Ignore },
    }
}

/// The plan for an event on a horse: an added horse gets the empty status exactly where it
/// has none, and is deleted where its deletion was requested, else checked for drift where
/// it has a remote identifier, else created; it records that it is being deleted or
/// created first, and nothing before a drift check. A modified horse records that it is
/// being updated and is updated. Other events lead to nothing.
pub proof fn law_horse_event_plans(event: WatchEventKind, has_status: bool, deleting: bool, has_uuid: bool)
    ensures
        horse_event_plan(event, has_status, deleting, has_uuid).add_default_status <==> (event is Added
            && !has_status),
        (event is Added && deleting) ==> horse_event_plan(event, has_status, deleting, has_uuid).action
            == HorseAction::Delete && horse_event_plan(event, has_status, deleting, has_uuid).progress == Some(
            ConditionKind::Deleting,
        ),
        (event is Added && !deleting && has_uuid) ==> horse_event_plan(event, has_status, deleting, has_uuid).action
            == HorseAction::CheckDrift && horse_event_plan(event, has_status, deleting, has_uuid).progress is None,
        (event is Added && !deleting && !has_uuid) ==> horse_event_plan(event, has_status, deleting, has_uuid).action
            == HorseAction::Create && horse_event_plan(event, has_status, deleting, has_uuid).progress == Some(
            ConditionKind::Creating,
        ),
        event is Modified ==> horse_event_plan(event, has_status, deleting, has_uuid).action == HorseAction::Update
            && horse_event_plan(event, has_status, deleting, has_uuid).progress == Some(ConditionKind::Updating),
        !(event is Added || event is Modified) ==> horse_event_plan(event, has_status, deleting, has_uuid).action
            == HorseAction::Ignore && horse_event_plan(event, has_status, deleting, has_uuid).progress is None,
{
}

/// The status a horse is given when it has none: no identifier, no condition, no
/// generation observed.
pub fn default_status() -> (s: OperatorHorseStatus)
    ensures
        s.uuid is None,
        s.conditions@.len() == 0,
        s.observed_generation is None,
{
    OperatorHorseStatus { uuid: None, conditions: Vec::new(), observed_generation: None }
}

/// `after` is `before` with one condition of the given kind appended and the generation
/// observed; an absent status stays absent.
pub open spec fn condition_recorded(
    before: Option<OperatorHorseStatus>,
    after: Option<OperatorHorseStatus>,
    kind: ConditionKind,
    generation: Option<i64>,
    timestamp: Seq<char>,
) -> bool {
    match before {
        None => after is None,
        Some(b) => match after {
            None => false,
            Some(a) => {
                &&& a.conditions@.len() == b.conditions@.len() + 1
                &&& a.conditions@.drop_last() == b.conditions@
                &&& is_condition(a.conditions@.last(), kind, generation, timestamp)
                &&& a.observed_generation == generation
            },
        },
    }
}

/// Records a condition of the given kind on a horse's status, with the generation it
/// saw; the identifier stays.
pub fn record_condition(
    status: Option<OperatorHorseStatus>,
    kind: ConditionKind,
    generation: Option<i64>,
    timestamp: &str,
) -> (r: Option<OperatorHorseStatus>)
    ensures
        condition_recorded(status, r, kind, generation, timestamp@),
        r is Some ==> r->0.uuid == status->0.uuid,
{
    match status {
        Some(mut s) => {
            let ghost before = s.conditions@;
            s.conditions.push(create_condition(kind, generation, timestamp));
            assert(s.conditions@.drop_last() =~= before);
            s.observed_generation = generation;
            Some(s)
        },
        None => None,
    }
}

/// Records that a horse was created remotely under `uuid`.
pub fn record_created(
    status: Option<OperatorHorseStatus>,
    uuid: String,
    generation: Option<i64>,
    timestamp: &str,
) -> (r: Option<OperatorHorseStatus>)
    ensures
        condition_recorded(status, r, ConditionKind::Created, generation, timestamp@),
        r is Some ==> r->0.uuid == Some(uuid),
{
    let r = record_condition(status, ConditionKind::Created, generation, timestamp);
    match r {
        Some(mut s) => {
            s.uuid = Some(uuid);
            Some(s)
        },
        None => None,
    }
}

/// The remote identifier to read a horse by when checking it for drift; none where the
/// horse has no identifier yet, and the check is skipped.
pub fn check_for_drift(horse: &OperatorHorse) -> (uuid: Option<String>)
    ensures
        uuid.deep_view() == horse_uuid(*horse),
{
    match &horse.status {
        Some(s) => copy_optional(&s.uuid),
        None => None,
    }
}

/// What to send to the remote API after reading the remote horse: the horse's own object
/// where the remote one has drifted from its spec, else nothing.
pub fn drift_update(horse: &OperatorHorse, remote: HorseDto) -> (push: Option<HorseDto>)
    ensures
        push is Some <==> !same_spec(horse.spec, remote_spec(remote)),
        push is Some ==> dto_of(push->0, *horse),
{
    let remote_spec = convert_dto_to_kube_type(remote);
    if crate::text::str_equal(&remote_spec.name, &horse.spec.name) && crate::text::str_equal(
        &remote_spec.breed,
        &horse.spec.breed,
    ) && remote_spec.age == horse.spec.age {
        None
    } else {
        Some(convert_kube_type_to_dto(horse))
    }
}

/// A horse's own remote object never counts as drift: checking a horse against the
/// object it converts to sends nothing.
pub proof fn law_own_object_is_no_drift(horse: OperatorHorse, dto: HorseDto)
    requires
        dto_of(dto, horse),
    ensures
        same_spec(horse.spec, remote_spec(dto)),
{
}

/// The remote identifier to delete a horse by: none where it has no identifier or an
/// empty one, and the deletion is skipped.
pub fn handle_delete_horse_by_id(horse: &OperatorHorse) -> (uuid: Option<String>)
    ensures
        uuid is Some <==> (horse_uuid(*horse) is Some && horse_uuid(*horse)->0.len() > 0),
        uuid is Some ==> Some(uuid->0@) == horse_uuid(*horse),
{
    match check_for_drift(horse) {
        Some(u) => {
            if u.as_str().is_empty() {
                None
            } else {
                Some(u)
            }
        },
        None => None,
    }
}

/// The remote identifier and object to update a horse by: none where it has no
/// identifier, and the update is skipped.
pub fn handle_update_horse_by_id(horse: &OperatorHorse) -> (update: Option<(String, HorseDto)>)
    ensures
        update is Some <==> horse_uuid(*horse) is Some,
        match update {
            Some(p) => Some(p.0@) == horse_uuid(*horse) && dto_of(p.1, *horse),
            None => true,
        },
{
    match check_for_drift(horse) {
        Some(u) => Some((u, convert_kube_type_to_dto(horse))),
        None => None,
    }
}

/// The object to create a horse remotely with.
pub fn handle_create_horse(horse: &OperatorHorse) -> (dto: HorseDto)
    ensures
        dto_of(dto, *horse),
{
    convert_kube_type_to_dto(horse)
}

/// Recording a condition never loses one recorded before: the earlier conditions stay,
/// in order, and the new one comes last.
pub proof fn law_recording_keeps_earlier_conditions(
    before: OperatorHorseStatus,
    after: Option<OperatorHorseStatus>,
    kind: ConditionKind,
    generation: Option<i64>,
    timestamp: Seq<char>,
)
    requires
        condition_recorded(Some(before), after, kind, generation, timestamp),
    ensures
        after matches Some(a) && forall|i: int|
            0 <= i < before.conditions@.len() ==> a.conditions@[i] == before.conditions@[i],
{
    let a = after->0;
    assert forall|i: int| 0 <= i < before.conditions@.len() implies a.conditions@[i]
        == before.conditions@[i] by {
        assert(a.conditions@.drop_last()[i] == a.conditions@[i]);
    }
}

} // verus!
