//! The event-reporting controller of horses: which remote call each event leads to.

use vstd::prelude::*;

use crate::controllers::cat::deleted_call;
use crate::controllers::{RemoteCall, WatchEventKind};

verus! {

/// The call for an event on a horse whose deletion was requested or not and that has a
/// remote identifier or not. A new horse that has an identifier exists remotely already.
pub open spec fn horse_call(event: WatchEventKind, deleting: bool, has_uuid: bool) -> RemoteCall {
    match event {
        WatchEventKind::Added => if deleting {
            deleted_call(has_uuid)
        } else if has_uuid {
            RemoteCall::Nothing
        } else {
            RemoteCall::Create
        },
        WatchEventKind::Modified => if deleting {
            deleted_call(has_uuid)
        } else if has_uuid {
            RemoteCall::Update
        } else {
            RemoteCall::UpdateWithoutId
        },
        _ => RemoteCall::Nothing,
    }
}

/// Decides the remote call for an event on a horse: a new horse is created unless it
/// exists remotely already; a changed horse is updated; either is deleted where its
/// deletion was requested; each by its identifier, and reported where it has none.
pub fn handle_horse(event: WatchEventKind, deleting: bool, uuid: &Option<String>) -> (call:
    RemoteCall)
    ensures
        call == horse_call(event, deleting, uuid is Some),
{
    let has_uuid = uuid.is_some();
    let delete = if has_uuid {
        RemoteCall::Delete
    } else {
        RemoteCall::DeleteWithoutId
    };
    match event {
        WatchEventKind::Added => if deleting {
            delete
        } else if has_uuid {
            RemoteCall::Nothing
        } else {
            RemoteCall::Create
        },
        WatchEventKind::Modified => if deleting {
            delete
        } else if has_uuid {
            RemoteCall::Update
        } else {
            RemoteCall::UpdateWithoutId
        },
        _ => RemoteCall::Nothing,
    }
}


/// The horse controller calls the remote API by a horse's identifier exactly where the
/// horse has one: with an identifier it never reports a missing one, and without one it
/// never calls by one. A horse whose deletion was requested is deleted on an added or
/// changed event; otherwise a new horse is created unless it has an identifier already,
/// and a changed horse is updated; other events lead to no call.
pub proof fn law_horse_calls_follow_the_identifier(event: WatchEventKind, deleting: bool, has_uuid: bool)
    ensures
        has_uuid ==> !(horse_call(event, deleting, has_uuid) is UpdateWithoutId) && !(horse_call(
            event,
            deleting,
            has_uuid,
        ) is DeleteWithoutId),
        !has_uuid ==> !(horse_call(event, deleting, has_uuid) is Update) && !(horse_call(
            event,
            deleting,
            has_uuid,
        ) is Delete),
        ((event is Added || event is Modified) && deleting) ==> (horse_call(event, deleting, has_uuid) is Delete
            || horse_call(event, deleting, has_uuid) is DeleteWithoutId),
        (event is Modified && !deleting) ==> (horse_call(event, deleting, has_uuid) is Update
            || horse_call(event, deleting, has_uuid) is UpdateWithoutId),
        (event is Added && !deleting) ==> (horse_call(event, deleting, has_uuid) is Create <==> !has_uuid),
        (event is Added && !deleting && has_uuid) ==> horse_call(event, deleting, has_uuid) is Nothing,
        !(event is Added || event is Modified) ==> horse_call(event, deleting, has_uuid) is Nothing,
{
}

} // verus!
