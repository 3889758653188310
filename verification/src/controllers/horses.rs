//! The controller of horses: the conversions to and from the remote object, and what each event and
//! each remote answer leads to.

use vstd::prelude::*;

use crate::controllers::{
    event_message, event_text, make_event, metadata_alike, resource_message, same_metadata,
    same_optional, FollowUp,
    added_plan, copy_optional, modified_plan, plan_added, plan_event, plan_modified, sync_plan,
    SyncPlan, WatchEventKind,
};
use crate::types::horse::{Horse, HorseSpec, HorseStatus};
use crate::types::dto::Horse as HorseDto;

verus! {

/// The remote identifier a horse's status holds, if any.
pub open spec fn horse_uuid(horse: Horse) -> Option<Seq<char>> {
    match horse.status {
        Some(s) => s.uuid.deep_view(),
        None => None,
    }
}

/// The remote object describes the horse: its identifier and its spec.
pub open spec fn dto_of(dto: HorseDto, horse: Horse) -> bool {
    &&& dto.uuid.deep_view() == horse_uuid(horse)
    &&& dto.name@ == horse.spec.name@
    &&& dto.breed@ == horse.spec.breed@
    &&& dto.age == horse.spec.age
}

/// Two remote objects are alike in every field.
pub open spec fn same_dto(a: HorseDto, b: HorseDto) -> bool {
    &&& a.uuid.deep_view() == b.uuid.deep_view()
    &&& a.name@ == b.name@
    &&& a.breed@ == b.breed@
    &&& a.age == b.age
}

/// The remote object of a horse: its identifier and its spec.
pub fn convert_kube_type_to_dto(horse: Horse) -> (dto: HorseDto)
    ensures
        dto_of(dto, horse),
{
    let uuid = match horse.status {
        Some(status) => status.uuid,
        None => None,
    };
    HorseDto { uuid, name: horse.spec.name, breed: horse.spec.breed, age: horse.spec.age }
}

/// The spec holds what the remote object holds.
pub open spec fn spec_of(spec: HorseSpec, dto: HorseDto) -> bool {
    &&& spec.name@ == dto.name@
    &&& spec.breed@ == dto.breed@
    &&& spec.age == dto.age
}

/// The spec a remote object describes.
pub fn convert_dto_to_kube_type(horse: HorseDto) -> (spec: HorseSpec)
    ensures
        spec_of(spec, horse),
{
    HorseSpec { name: horse.name, breed: horse.breed, age: horse.age }
}

/// Whether a horse whose remote object differs from it is handled as changed: where the
/// remote spec differs from the horse's.
pub fn spec_drifted(horse: &Horse, remote: HorseDto) -> (r: bool)
    ensures
        r == !(horse.spec.name@ == remote.name@ && horse.spec.breed@ == remote.breed@
            && horse.spec.age == remote.age),
{
    let remote_spec = convert_dto_to_kube_type(remote);
    !(crate::text::str_equal(&horse.spec.name, &remote_spec.name) && crate::text::str_equal(
        &horse.spec.breed,
        &remote_spec.breed,
    ) && horse.spec.age == remote_spec.age)
}

/// Converting a horse to its remote object and back gives its spec again.
pub proof fn law_horse_round_trip(horse: Horse, dto: HorseDto, spec: HorseSpec)
    ensures
        dto_of(dto, horse) && spec_of(spec, dto) ==> spec.name@ == horse.spec.name@
            && spec.breed@ == horse.spec.breed@ && spec.age == horse.spec.age,
{
}

/// The remote object of a horse, leaving the horse as it is.
fn dto_from(horse: &Horse) -> (dto: HorseDto)
    ensures
        dto_of(dto, *horse),
{
    let uuid = match &horse.status {
        Some(status) => copy_optional(&status.uuid),
        None => None,
    };
    HorseDto {
        uuid,
        name: horse.spec.name.clone(),
        breed: horse.spec.breed.clone(),
        age: horse.spec.age,
    }
}

/// Decides what an event on a horse leads to: a new horse is deleted where its deletion was
/// requested, checked for drift where it exists remotely and created otherwise; a changed
/// horse is deleted where its deletion was requested and compared with the remote one
/// where it exists there.
pub fn handle(event: WatchEventKind, horse: &Horse) -> (plan: SyncPlan)
    ensures
        plan == sync_plan(
            event,
            horse.metadata.deletion_timestamp is Some,
            horse.status is Some,
            horse_uuid(*horse) is Some,
        ),
{
    let has_uuid = match &horse.status {
        Some(s) => s.uuid.is_some(),
        None => false,
    };
    plan_event(event, horse.metadata.deletion_timestamp.is_some(), horse.status.is_some(), has_uuid)
}

/// Decides what a newly seen horse leads to.
pub fn handle_added(horse: &Horse) -> (plan: SyncPlan)
    ensures
        plan == added_plan(
            horse.metadata.deletion_timestamp is Some,
            horse.status is Some,
            horse_uuid(*horse) is Some,
        ),
{
    let has_uuid = match &horse.status {
        Some(s) => s.uuid.is_some(),
        None => false,
    };
    plan_added(horse.metadata.deletion_timestamp.is_some(), horse.status.is_some(), has_uuid)
}

/// Decides what a changed horse leads to.
pub fn handle_modified(horse: &Horse) -> (plan: SyncPlan)
    ensures
        plan == modified_plan(
            horse.metadata.deletion_timestamp is Some,
            horse.status is Some,
            horse_uuid(*horse) is Some,
        ),
{
    let has_uuid = match &horse.status {
        Some(s) => s.uuid.is_some(),
        None => false,
    };
    plan_modified(horse.metadata.deletion_timestamp.is_some(), horse.status.is_some(), has_uuid)
}

/// The remote identifier to delete a horse by; none where it has none, on which the
/// deleting handler stops.
pub fn handle_deleted(horse: &Horse) -> (uuid: Option<String>)
    ensures
        uuid.deep_view() == horse_uuid(*horse),
{
    match &horse.status {
        Some(s) => copy_optional(&s.uuid),
        None => None,
    }
}

/// The remote identifier to read a horse by when checking it for drift; none where it has
/// none, and the check reports no drift.
pub fn check_for_drift(horse: &Horse) -> (uuid: Option<String>)
    ensures
        uuid.deep_view() == horse_uuid(*horse),
{
    handle_deleted(horse)
}

/// What to send to the remote API after reading the remote horse: the horse's own object
/// where the remote one differs from it in any field, else nothing.
pub fn drift_update(horse: &Horse, remote: &HorseDto) -> (push: Option<HorseDto>)
    ensures
        push is Some <==> !(dto_of(*remote, *horse)),
        push is Some ==> dto_of(push->0, *horse),
{
    let local = dto_from(horse);
    let same_uuid = match (&local.uuid, &remote.uuid) {
        (Some(a), Some(b)) => crate::text::str_equal(a, b),
        (None, None) => true,
        _ => false,
    };
    if same_uuid && crate::text::str_equal(&local.name, &remote.name) && crate::text::str_equal(
        &local.breed,
        &remote.breed,
    ) && local.age == remote.age {
        None
    } else {
        Some(local)
    }
}

/// Records on a horse the remote identifier it was created under.
pub fn change_status(horse: &mut Horse, uuid: String)
    ensures
        final(horse).metadata == old(horse).metadata,
        final(horse).spec == old(horse).spec,
        final(horse).status matches Some(s) && s.uuid == Some(uuid),
{
    horse.status = Some(HorseStatus { uuid: Some(uuid) });
}

/// What follows the answer to creating a horse remotely: on success, record the identifier
/// the remote horse got and a `Normal` event saying `<kind> <name> created`; on failure, drop the operator's
/// finalizer again, and record neither an identifier nor an event.
pub fn after_create(kind: &str, name: &str, outcome: Result<String, ()>) -> (f: FollowUp)
    ensures
        match outcome {
            Ok(uuid) => f.record_uuid == Some(uuid) && !f.remove_finalizer && (f.event matches Some(e) && event_text(e) == (
                "Normal"@,
                "horse"@,
                event_message(kind@, name@, "created"@),
            )),
            Err(()) => f.record_uuid is None && f.event is None && f.remove_finalizer,
        },
{
    match outcome {
        Ok(uuid) => FollowUp {
            record_uuid: Some(uuid),
            event: Some(make_event("Normal", "horse", resource_message(kind, name, "created"))),
            remove_finalizer: false,
        },
        Err(()) => FollowUp { record_uuid: None, event: None, remove_finalizer: true },
    }
}

/// What follows the answer to deleting a horse remotely: on success, a `Normal` event saying
/// `<kind> <name> deleted` and the operator's finalizer dropped; on failure, an `Error` event
/// saying `Failed to delete <kind> <name> remotely` and the finalizer kept, so that the
/// deletion is tried again.
pub fn after_delete(kind: &str, name: &str, succeeded: bool) -> (f: FollowUp)
    ensures
        f.record_uuid is None,
        f.remove_finalizer == succeeded,
        f.event matches Some(e) && event_text(e) == if succeeded {
            ("Normal"@, "horse"@, event_message(kind@, name@, "deleted"@))
        } else {
            ("Error"@, "horse"@, "Failed to delete "@ + event_message(kind@, name@, "remotely"@))
        },
{
    if succeeded {
        FollowUp {
            record_uuid: None,
            event: Some(make_event("Normal", "horse", resource_message(kind, name, "deleted"))),
            remove_finalizer: true,
        }
    } else {
        FollowUp {
            record_uuid: None,
            event: Some(
                make_event("Error", "horse", "Failed to delete ".to_owned().concat(resource_message(kind, name, "remotely").as_str())),
            ),
            remove_finalizer: false,
        }
    }
}

/// Two horses are alike in every field the operator reads.
pub open spec fn same_horse(a: Horse, b: Horse) -> bool {
    &&& same_metadata(a.metadata, b.metadata)
    &&& a.spec.name@ == b.spec.name@
    &&& a.spec.breed@ == b.spec.breed@
    &&& a.spec.age == b.spec.age
    &&& horse_uuid_or_status(a) == horse_uuid_or_status(b)
}

/// The status of a horse: none, or the identifier it holds.
pub open spec fn horse_uuid_or_status(x: Horse) -> Option<Option<Seq<char>>> {
    match x.status {
        Some(s) => Some(s.uuid.deep_view()),
        None => None,
    }
}

/// Whether the live horse read after a drift differs from the horse the check started from;
/// only then is it handled as changed.
pub fn live_differs(live: &Horse, horse: &Horse) -> (r: bool)
    ensures
        r == !same_horse(*live, *horse),
{
    let same_status = match (&live.status, &horse.status) {
        (Some(a), Some(b)) => same_optional(&a.uuid, &b.uuid),
        (None, None) => true,
        _ => false,
    };
    !(metadata_alike(&live.metadata, &horse.metadata) && crate::text::str_equal(
        &live.spec.name,
        &horse.spec.name,
    ) && crate::text::str_equal(&live.spec.breed, &horse.spec.breed) && live.spec.age
        == horse.spec.age && same_status)
}

} // verus!
