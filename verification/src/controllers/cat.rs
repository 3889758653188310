//! The event-reporting controller of cats: which remote call each event leads to.

use vstd::prelude::*;

use crate::controllers::{RemoteCall, WatchEventKind};

verus! {

/// The call for an event on a cat whose deletion was requested or not and that has a
/// remote identifier or not.
pub open spec fn cat_call(event: WatchEventKind, deleting: bool, has_id: bool) -> RemoteCall {
    match event {
        WatchEventKind::Added => if deleting {
            deleted_call(has_id)
        } else {
            RemoteCall::Create
        },
        WatchEventKind::Modified => if has_id {
            RemoteCall::Update
        } else {
            RemoteCall::UpdateWithoutId
        },
        WatchEventKind::Deleted => deleted_call(has_id),
        _ => RemoteCall::Nothing,
    }
}

/// The call that deletes a resource, where it has an identifier.
pub open spec fn deleted_call(has_id: bool) -> RemoteCall {
    if has_id {
        RemoteCall::Delete
    } else {
        RemoteCall::DeleteWithoutId
    }
}

/// Decides the remote call for an event on a cat: a new cat is created, or deleted where
/// its deletion was requested; a changed cat is updated; a deleted cat is deleted; each
/// by its identifier, and reported where it has none.
pub fn handle_cat(event: WatchEventKind, deleting: bool, id: &Option<String>) -> (call: RemoteCall)
    ensures
        call == cat_call(event, deleting, id is Some),
{
    let has_id = id.is_some();
    match event {
        WatchEventKind::Added => if deleting {
            if has_id {
                RemoteCall::Delete
            } else {
                RemoteCall::DeleteWithoutId
            }
        } else {
            RemoteCall::Create
        },
        WatchEventKind::Modified => if has_id {
            RemoteCall::Update
        } else {
            RemoteCall::UpdateWithoutId
        },
        WatchEventKind::Deleted => if has_id {
            RemoteCall::Delete
        } else {
            RemoteCall::DeleteWithoutId
        },
        _ => RemoteCall::Nothing,
    }
}


/// The cat controller calls the remote API by a cat's identifier exactly where the cat has
/// one: with an identifier it never reports a missing one, and without one it never calls
/// by one. A new cat is created, or deleted where its deletion was requested; a changed
/// cat is updated; a deleted cat is deleted; other events lead to no call.
pub proof fn law_cat_calls_follow_the_identifier(event: WatchEventKind, deleting: bool, has_id: bool)
    ensures
        has_id ==> !(cat_call(event, deleting, has_id) is UpdateWithoutId) && !(cat_call(
            event,
            deleting,
            has_id,
        ) is DeleteWithoutId),
        !has_id ==> !(cat_call(event, deleting, has_id) is Update) && !(cat_call(
            event,
            deleting,
            has_id,
        ) is Delete),
        event is Modified ==> (cat_call(event, deleting, has_id) is Update || cat_call(
            event,
            deleting,
            has_id,
        ) is UpdateWithoutId),
        (event is Deleted || (event is Added && deleting)) ==> (cat_call(event, deleting, has_id) is Delete
            || cat_call(event, deleting, has_id) is DeleteWithoutId),
        (event is Added && !deleting) ==> cat_call(event, deleting, has_id) is Create,
        !(event is Added || event is Modified || event is Deleted) ==> cat_call(
            event,
            deleting,
            has_id,
        ) is Nothing,
{
}

} // verus!
