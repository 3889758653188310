//! The controller of dogs: the conversion to the remote object, and what each event and
//! each remote answer leads to.

use vstd::prelude::*;

use crate::controllers::{
    event_message, event_text, make_event, metadata_alike, resource_message, same_metadata,
    same_optional, FollowUp,
    added_plan, copy_optional, modified_plan, plan_added, plan_event, plan_modified, sync_plan,
    SyncPlan, WatchEventKind,
};
use crate::types::dog::{Dog, DogStatus};
use crate::types::dto::Dog as DogDto;

verus! {

/// The remote identifier a dog's status holds, if any.
pub open spec fn dog_uuid(dog: Dog) -> Option<Seq<char>> {
    match dog.status {
        Some(s) => s.uuid.deep_view(),
        None => None,
    }
}

/// The remote object describes the dog: its identifier and its spec.
pub open spec fn dto_of(dto: DogDto, dog: Dog) -> bool {
    &&& dto.uuid.deep_view() == dog_uuid(dog)
    &&& dto.name@ == dog.spec.name@
    &&& dto.breed@ == dog.spec.breed@
    &&& dto.age == dog.spec.age
}

/// Two remote objects are alike in every field.
pub open spec fn same_dto(a: DogDto, b: DogDto) -> bool {
    &&& a.uuid.deep_view() == b.uuid.deep_view()
    &&& a.name@ == b.name@
    &&& a.breed@ == b.breed@
    &&& a.age == b.age
}

/// The remote object of a dog: its identifier and its spec.
pub fn convert_to_dto(dog: Dog) -> (dto: DogDto)
    ensures
        dto_of(dto, dog),
{
    let uuid = match dog.status {
        Some(status) => status.uuid,
        None => None,
    };
    DogDto { uuid, name: dog.spec.name, breed: dog.spec.breed, age: dog.spec.age }
}

/// The remote object of a dog, leaving the dog as it is.
fn dto_from(dog: &Dog) -> (dto: DogDto)
    ensures
        dto_of(dto, *dog),
{
    let uuid = match &dog.status {
        Some(status) => copy_optional(&status.uuid),
        None => None,
    };
    DogDto {
        uuid,
        name: dog.spec.name.clone(),
        breed: dog.spec.breed.clone(),
        age: dog.spec.age,
    }
}

/// Decides what an event on a dog leads to: a new dog is deleted where its deletion was
/// requested, checked for drift where it exists remotely and created otherwise; a changed
/// dog is deleted where its deletion was requested and compared with the remote one
/// where it exists there.
pub fn handle(event: WatchEventKind, dog: &Dog) -> (plan: SyncPlan)
    ensures
        plan == sync_plan(
            event,
            dog.metadata.deletion_timestamp is Some,
            dog.status is Some,
            dog_uuid(*dog) is Some,
        ),
{
    let has_uuid = match &dog.status {
        Some(s) => s.uuid.is_some(),
        None => false,
    };
    plan_event(event, dog.metadata.deletion_timestamp.is_some(), dog.status.is_some(), has_uuid)
}

/// Decides what a newly seen dog leads to.
pub fn handle_added(dog: &Dog) -> (plan: SyncPlan)
    ensures
        plan == added_plan(
            dog.metadata.deletion_timestamp is Some,
            dog.status is Some,
            dog_uuid(*dog) is Some,
        ),
{
    let has_uuid = match &dog.status {
        Some(s) => s.uuid.is_some(),
        None => false,
    };
    plan_added(dog.metadata.deletion_timestamp.is_some(), dog.status.is_some(), has_uuid)
}

/// Decides what a changed dog leads to.
pub fn handle_modified(dog: &Dog) -> (plan: SyncPlan)
    ensures
        plan == modified_plan(
            dog.metadata.deletion_timestamp is Some,
            dog.status is Some,
            dog_uuid(*dog) is Some,
        ),
{
    let has_uuid = match &dog.status {
        Some(s) => s.uuid.is_some(),
        None => false,
    };
    plan_modified(dog.metadata.deletion_timestamp.is_some(), dog.status.is_some(), has_uuid)
}

/// The remote identifier to delete a dog by; none where it has none, on which the
/// deleting handler stops.
pub fn handle_deleted(dog: &Dog) -> (uuid: Option<String>)
    ensures
        uuid.deep_view() == dog_uuid(*dog),
{
    match &dog.status {
        Some(s) => copy_optional(&s.uuid),
        None => None,
    }
}

/// The remote identifier to read a dog by when checking it for drift; none where it has
/// none, and the check reports no drift.
pub fn check_for_drift(dog: &Dog) -> (uuid: Option<String>)
    ensures
        uuid.deep_view() == dog_uuid(*dog),
{
    handle_deleted(dog)
}

/// What to send to the remote API after reading the remote dog: the dog's own object
/// where the remote one differs from it in any field, else nothing.
pub fn drift_update(dog: &Dog, remote: &DogDto) -> (push: Option<DogDto>)
    ensures
        push is Some <==> !(dto_of(*remote, *dog)),
        push is Some ==> dto_of(push->0, *dog),
{
    let local = dto_from(dog);
    let same_uuid = match (&local.uuid, &remote.uuid) {
        (Some(a), Some(b)) => crate::text::str_equal(a, b),
        (None, None) => true,
        _ => false,
    };
    if same_uuid && crate::text::str_equal(&local.name, &remote.name) && crate::text::str_equal(
        &local.breed,
        &remote.breed,
    ) && local.age == remote.age {
        None
    } else {
        Some(local)
    }
}

/// Records on a dog the remote identifier it was created under.
pub fn change_status(dog: &mut Dog, uuid: String)
    ensures
        final(dog).metadata == old(dog).metadata,
        final(dog).spec == old(dog).spec,
        final(dog).status matches Some(s) && s.uuid == Some(uuid),
{
    dog.status = Some(DogStatus { uuid: Some(uuid) });
}

/// What follows the answer to creating a dog remotely: on success, record the identifier
/// the remote dog got and a `Normal` event saying `Dog created`; on failure, drop the operator's
/// finalizer again, and record neither an identifier nor an event.
pub fn after_create(outcome: Result<String, ()>) -> (f: FollowUp)
    ensures
        match outcome {
            Ok(uuid) => f.record_uuid == Some(uuid) && !f.remove_finalizer && (f.event matches Some(e) && event_text(e) == (
                "Normal"@,
                "dog"@,
                "Dog created"@,
            )),
            Err(()) => f.record_uuid is None && f.event is None && f.remove_finalizer,
        },
{
    match outcome {
        Ok(uuid) => FollowUp {
            record_uuid: Some(uuid),
            event: Some(make_event("Normal", "dog", "Dog created".to_owned())),
            remove_finalizer: false,
        },
        Err(()) => FollowUp { record_uuid: None, event: None, remove_finalizer: true },
    }
}

/// What follows the answer to deleting a dog remotely: on success, a `Normal` event saying
/// `Dog deleted` and the operator's finalizer dropped; on failure, an `Error` event saying
/// `Failed to delete <kind> <name> remotely` and the finalizer kept, so that the deletion
/// is tried again.
pub fn after_delete(kind: &str, name: &str, succeeded: bool) -> (f: FollowUp)
    ensures
        f.record_uuid is None,
        f.remove_finalizer == succeeded,
        f.event matches Some(e) && event_text(e) == if succeeded {
            ("Normal"@, "dog"@, "Dog deleted"@)
        } else {
            ("Error"@, "dog"@, "Failed to delete "@ + event_message(kind@, name@, "remotely"@))
        },
{
    if succeeded {
        FollowUp {
            record_uuid: None,
            event: Some(make_event("Normal", "dog", "Dog deleted".to_owned())),
            remove_finalizer: true,
        }
    } else {
        FollowUp {
            record_uuid: None,
            event: Some(
                make_event("Error", "dog", "Failed to delete ".to_owned().concat(resource_message(kind, name, "remotely").as_str())),
            ),
            remove_finalizer: false,
        }
    }
}

/// Two dogs are alike in every field the operator reads.
pub open spec fn same_dog(a: Dog, b: Dog) -> bool {
    &&& same_metadata(a.metadata, b.metadata)
    &&& a.spec.name@ == b.spec.name@
    &&& a.spec.breed@ == b.spec.breed@
    &&& a.spec.age == b.spec.age
    &&& dog_uuid_or_status(a) == dog_uuid_or_status(b)
}

/// The status of a dog: none, or the identifier it holds.
pub open spec fn dog_uuid_or_status(x: Dog) -> Option<Option<Seq<char>>> {
    match x.status {
        Some(s) => Some(s.uuid.deep_view()),
        None => None,
    }
}

/// Whether the live dog read after a drift differs from the dog the check started from;
/// only then is it handled as changed.
pub fn live_differs(live: &Dog, dog: &Dog) -> (r: bool)
    ensures
        r == !same_dog(*live, *dog),
{
    let same_status = match (&live.status, &dog.status) {
        (Some(a), Some(b)) => same_optional(&a.uuid, &b.uuid),
        (None, None) => true,
        _ => false,
    };
    !(metadata_alike(&live.metadata, &dog.metadata) && crate::text::str_equal(
        &live.spec.name,
        &dog.spec.name,
    ) && crate::text::str_equal(&live.spec.breed, &dog.spec.breed) && live.spec.age
        == dog.spec.age && same_status)
}

} // verus!
