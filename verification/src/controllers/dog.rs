//! The event-recording controller of dogs: which remote call each event leads to, and
//! the event it records.

use vstd::prelude::*;

use crate::controllers::cat::deleted_call;
use crate::controllers::{RemoteCall, WatchEventKind};

verus! {

/// The call for an event on a dog whose deletion was requested or not and that has a
/// remote identifier or not. A missing identifier is only logged.
pub open spec fn dog_call(event: WatchEventKind, deleting: bool, has_id: bool) -> RemoteCall {
    match event {
        WatchEventKind::Added => if deleting {
            deleted_call(has_id)
        } else {
            RemoteCall::Create
        },
        WatchEventKind::Modified => if has_id {
            RemoteCall::Update
        } else {
            RemoteCall::UpdateWithoutId
        },
        WatchEventKind::Deleted => deleted_call(has_id),
        _ => RemoteCall::Nothing,
    }
}

/// The name of an event that the dog controller records an event for.
pub open spec fn dog_event_name(event: WatchEventKind) -> Option<Seq<char>> {
    match event {
        WatchEventKind::Added => Some("Added"@),
        WatchEventKind::Modified => Some("Modified"@),
        WatchEventKind::Deleted => Some("Deleted"@),
        _ => None,
    }
}

/// What the dog controller does for an event: the call, and the reason and message of
/// the event it records afterwards, where it records one.
#[derive(Debug)]
pub struct DogEventPlan {
    pub call: RemoteCall,
    pub recorded: Option<(String, String)>,
}

/// Decides the remote call for an event on a dog and the event it records: the event's
/// name as the reason, and `Dog Resource <name> Remotely` as the message.
pub fn handle_dog(event: WatchEventKind, deleting: bool, id: &Option<String>) -> (plan:
    DogEventPlan)
    ensures
        plan.call == dog_call(event, deleting, id is Some),
        match dog_event_name(event) {
            Some(n) => plan.recorded matches Some(p) && p.0@ == n && p.1@ == "Dog Resource "@ + n
                + " Remotely"@,
            None => plan.recorded is None,
        },
{
    let has_id = id.is_some();
    let delete = if has_id {
        RemoteCall::Delete
    } else {
        RemoteCall::DeleteWithoutId
    };
    let (call, name) = match event {
        WatchEventKind::Added => if deleting {
            (delete, "Added")
        } else {
            (RemoteCall::Create, "Added")
        },
        WatchEventKind::Modified => if has_id {
            (RemoteCall::Update, "Modified")
        } else {
            (RemoteCall::UpdateWithoutId, "Modified")
        },
        WatchEventKind::Deleted => (delete, "Deleted"),
        _ => {
            return DogEventPlan { call: RemoteCall::Nothing, recorded: None };
        },
    };
    let message = "Dog Resource ".to_owned().concat(name).concat(" Remotely");
    DogEventPlan { call, recorded: Some((name.to_owned(), message)) }
}


/// The dog controller calls the remote API by a dog's identifier exactly where the dog has
/// one: with an identifier it never reports a missing one, and without one it never calls
/// by one. A new dog is created, or deleted where its deletion was requested; a changed
/// dog is updated; a deleted dog is deleted; other events lead to no call.
pub proof fn law_dog_calls_follow_the_identifier(event: WatchEventKind, deleting: bool, has_id: bool)
    ensures
        has_id ==> !(dog_call(event, deleting, has_id) is UpdateWithoutId) && !(dog_call(
            event,
            deleting,
            has_id,
        ) is DeleteWithoutId),
        !has_id ==> !(dog_call(event, deleting, has_id) is Update) && !(dog_call(
            event,
            deleting,
            has_id,
        ) is Delete),
        event is Modified ==> (dog_call(event, deleting, has_id) is Update || dog_call(
            event,
            deleting,
            has_id,
        ) is UpdateWithoutId),
        (event is Deleted || (event is Added && deleting)) ==> (dog_call(event, deleting, has_id) is Delete
            || dog_call(event, deleting, has_id) is DeleteWithoutId),
        (event is Added && !deleting) ==> dog_call(event, deleting, has_id) is Create,
        !(event is Added || event is Modified || event is Deleted) ==> dog_call(
            event,
            deleting,
            has_id,
        ) is Nothing,
{
}

} // verus!
