//! Decisions of the operator's controllers: what a watch event or a remote answer leads
//! to, and the status conditions the operator records on its resources.

use vstd::prelude::*;

use crate::types::{Condition, ObjectMeta};

pub mod cat;
pub mod cats;
pub mod dog;
pub mod horse;
pub mod dogs;
pub mod horses;
pub mod horse_watch;

verus! {

/// The kinds of event that watching a resource type delivers.
#[derive(PartialEq, Eq, Structural, Debug, Clone, Copy)]
pub enum WatchEventKind {
    Added,
    Modified,
    Deleted,
    Bookmark,
    Error,
}

/// The stages of a resource's life that the operator records as a condition.
#[derive(PartialEq, Eq, Structural, Debug, Clone, Copy)]
pub enum ConditionKind {
    Creating,
    Created,
    Updating,
    Updated,
    Deleting,
    Deleted,
}

/// The `status` a condition of the given kind carries.
pub open spec fn condition_status(kind: ConditionKind) -> Seq<char> {
    match kind {
        ConditionKind::Creating => "Creating"@,
        ConditionKind::Created => "Created"@,
        ConditionKind::Updating => "Updating"@,
        ConditionKind::Updated => "Updated"@,
        ConditionKind::Deleting => "Deleting"@,
        ConditionKind::Deleted => "Deleted"@,
    }
}

/// The `type` a condition of the given kind carries.
pub open spec fn condition_type(kind: ConditionKind) -> Seq<char> {
    match kind {
        ConditionKind::Creating => "ProgressingCreating"@,
        ConditionKind::Created => "AvailableCreated"@,
        ConditionKind::Updating => "ProgressingUpdating"@,
        ConditionKind::Updated => "AvailableUpdated"@,
        ConditionKind::Deleting => "ProgressingDeletion"@,
        ConditionKind::Deleted => "UnavailableDeleted"@,
    }
}

/// The `reason` a condition of the given kind carries.
pub open spec fn condition_reason(kind: ConditionKind) -> Seq<char> {
    match kind {
        ConditionKind::Creating => "Creating the resource"@,
        ConditionKind::Created => "Created the resource"@,
        ConditionKind::Updating => "Updating the resource"@,
        ConditionKind::Updated => "Updated the resource"@,
        ConditionKind::Deleting => "Deleting the resource"@,
        ConditionKind::Deleted => "Deleted the resource"@,
    }
}

/// The `message` a condition of the given kind carries.
pub open spec fn condition_message(kind: ConditionKind) -> Seq<char> {
    match kind {
        ConditionKind::Creating => "Resource is being created"@,
        ConditionKind::Created => "Resource has been created"@,
        ConditionKind::Updating => "Resource is being updated"@,
        ConditionKind::Updated => "Resource has been updated"@,
        ConditionKind::Deleting => "Resource is being deleted"@,
        ConditionKind::Deleted => "Resource has been deleted"@,
    }
}

/// Holds of a condition of the given kind, observed at `generation` and at `timestamp`.
pub open spec fn is_condition(
    c: Condition,
    kind: ConditionKind,
    generation: Option<i64>,
    timestamp: Seq<char>,
) -> bool {
    &&& c.status@ == condition_status(kind)
    &&& c.type_@ == condition_type(kind)
    &&& c.reason@ == condition_reason(kind)
    &&& c.message@ == condition_message(kind)
    &&& c.last_transition_time@ == timestamp
    &&& c.observed_generation == generation
}

/// The condition of the given kind for a resource at `generation`, stamped `timestamp`.
pub fn create_condition(kind: ConditionKind, generation: Option<i64>, timestamp: &str) -> (c:
    Condition)
    ensures
        is_condition(c, kind, generation, timestamp@),
{
    let (status, type_, reason, message) = match kind {
        ConditionKind::Creating => (
            "Creating",
            "ProgressingCreating",
            "Creating the resource",
            "Resource is being created",
        ),
        ConditionKind::Created => (
            "Created",
            "AvailableCreated",
            "Created the resource",
            "Resource has been created",
        ),
        ConditionKind::Updating => (
            "Updating",
            "ProgressingUpdating",
            "Updating the resource",
            "Resource is being updated",
        ),
        ConditionKind::Updated => (
            "Updated",
            "AvailableUpdated",
            "Updated the resource",
            "Resource has been updated",
        ),
        ConditionKind::Deleting => (
            "Deleting",
            "ProgressingDeletion",
            "Deleting the resource",
            "Resource is being deleted",
        ),
        ConditionKind::Deleted => (
            "Deleted",
            "UnavailableDeleted",
            "Deleted the resource",
            "Resource has been deleted",
        ),
    };
    Condition {
        type_: type_.to_owned(),
        status: status.to_owned(),
        reason: reason.to_owned(),
        message: message.to_owned(),
        last_transition_time: timestamp.to_owned(),
        observed_generation: generation,
    }
}

/// The name a resource is addressed by: its name, or the empty string where it has none.
pub open spec fn resource_name(metadata: ObjectMeta) -> Seq<char> {
    match metadata.name {
        Some(n) => n@,
        None => Seq::empty(),
    }
}

/// The name to replace a resource by on the cluster.
pub fn name_or_default(metadata: &ObjectMeta) -> (r: String)
    ensures
        r@ == resource_name(*metadata),
{
    match &metadata.name {
        Some(n) => n.clone(),
        None => String::new(),
    }
}

/// What the event-driven controllers of dogs and horses do with a resource.
#[derive(PartialEq, Eq, Structural, Debug, Clone, Copy)]
pub enum SyncStep {
    /// Nothing: a bookmark, a deletion event or an error.
    Ignore,
    /// Delete the resource remotely, then drop the operator's finalizer.
    Delete,
    /// The resource exists remotely: compare the two and reconcile where they differ.
    CheckDrift,
    /// Put the operator's finalizer on the resource and create it remotely.
    Create,
    /// Read the remote resource and push the local one where they differ.
    Compare,
    /// The resource changed but was never created remotely: nothing to push.
    Missing,
}

/// A step, and whether the resource is first given the empty status.
#[derive(PartialEq, Eq, Structural, Debug, Clone, Copy)]
pub struct SyncPlan {
    pub add_default_status: bool,
    pub step: SyncStep,
}

/// The plan for a newly seen resource.
pub open spec fn added_plan(deleting: bool, has_status: bool, has_uuid: bool) -> SyncPlan {
    if deleting {
        SyncPlan { add_default_status: false, step: SyncStep::Delete }
    } else if has_uuid {
        SyncPlan { add_default_status: !has_status, step: SyncStep::CheckDrift }
    } else {
        SyncPlan { add_default_status: !has_status, step: SyncStep::Create }
    }
}

/// The plan for a changed resource.
pub open spec fn modified_plan(deleting: bool, has_status: bool, has_uuid: bool) -> SyncPlan {
    if deleting {
        SyncPlan { add_default_status: false, step: SyncStep::Delete }
    } else if has_uuid {
        SyncPlan { add_default_status: !has_status, step: SyncStep::Compare }
    } else {
        SyncPlan { add_default_status: !has_status, step: SyncStep::Missing }
    }
}

/// The plan for an event on a resource.
pub open spec fn sync_plan(
    event: WatchEventKind,
    deleting: bool,
    has_status: bool,
    has_uuid: bool,
) -> SyncPlan {
    match event {
        WatchEventKind::Added => added_plan(deleting, has_status, has_uuid),
        WatchEventKind::Modified => modified_plan(deleting, has_status, has_uuid),
        _ => SyncPlan { add_default_status: false, step: SyncStep::Ignore },
    }
}

/// Decides the plan for a newly seen resource.
pub fn plan_added(deleting: bool, has_status: bool, has_uuid: bool) -> (plan: SyncPlan)
    ensures
        plan == added_plan(deleting, has_status, has_uuid),
{
    if deleting {
        SyncPlan { add_default_status: false, step: SyncStep::Delete }
    } else if has_uuid {
        SyncPlan { add_default_status: !has_status, step: SyncStep::CheckDrift }
    } else {
        SyncPlan { add_default_status: !has_status, step: SyncStep::Create }
    }
}

/// Decides the plan for a changed resource.
pub fn plan_modified(deleting: bool, has_status: bool, has_uuid: bool) -> (plan: SyncPlan)
    ensures
        plan == modified_plan(deleting, has_status, has_uuid),
{
    if deleting {
        SyncPlan { add_default_status: false, step: SyncStep::Delete }
    } else if has_uuid {
        SyncPlan { add_default_status: !has_status, step: SyncStep::Compare }
    } else {
        SyncPlan { add_default_status: !has_status, step: SyncStep::Missing }
    }
}

/// Decides the plan for an event on a resource.
pub fn plan_event(event: WatchEventKind, deleting: bool, has_status: bool, has_uuid: bool) -> (plan:
    SyncPlan)
    ensures
        plan == sync_plan(event, deleting, has_status, has_uuid),
{
    match event {
        WatchEventKind::Added => plan_added(deleting, has_status, has_uuid),
        WatchEventKind::Modified => plan_modified(deleting, has_status, has_uuid),
        _ => SyncPlan { add_default_status: false, step: SyncStep::Ignore },
    }
}

/// The message of an event that says what happened to the named resource of a kind:
/// the kind, a space, the name, a space and what happened.
pub open spec fn event_message(kind: Seq<char>, name: Seq<char>, what: Seq<char>) -> Seq<char> {
    kind + " "@ + name + " "@ + what
}

/// Writes the message of an event about the named resource of a kind.
pub fn resource_message(kind: &str, name: &str, what: &str) -> (r: String)
    ensures
        r@ == event_message(kind@, name@, what@),
{
    let r = kind.to_owned().concat(" ").concat(name).concat(" ").concat(what);
    r
}

/// The remote call an event-reporting controller makes for an event, and what it reports
/// where it cannot make one.
#[derive(PartialEq, Eq, Structural, Debug, Clone, Copy)]
pub enum RemoteCall {
    /// No call and no report.
    Nothing,
    /// Put the operator's finalizer on the resource and create it remotely.
    Create,
    /// Update the resource remotely by its identifier.
    Update,
    /// Delete the resource remotely by its identifier, then drop the finalizer.
    Delete,
    /// The resource has no identifier to update it by: report the failure.
    UpdateWithoutId,
    /// The resource has no identifier to delete it by: report the failure.
    DeleteWithoutId,
}

/// The reason and message of the event an event-reporting controller records about the
/// named resource of a kind, after the given call succeeded or failed; none where the
/// call records nothing.
pub open spec fn outcome_event(call: RemoteCall, succeeded: bool, kind: Seq<char>, name: Seq<char>) -> Option<
    (Seq<char>, Seq<char>),
> {
    let subject = kind + " "@ + name;
    match call {
        RemoteCall::Nothing => None,
        RemoteCall::Create => if succeeded {
            Some(("Normal"@, subject + " created remotely"@))
        } else {
            Some(("Error"@, "Failed to create "@ + subject + " remotely"@))
        },
        RemoteCall::Update => if succeeded {
            Some(("Normal"@, subject + " modified remotely"@))
        } else {
            Some(("Error"@, "Failed to update "@ + subject + " remotely"@))
        },
        RemoteCall::Delete => if succeeded {
            Some(("Normal"@, subject + " deleted remotely"@))
        } else {
            Some(("Error"@, "Failed to delete "@ + subject + " remotely"@))
        },
        RemoteCall::UpdateWithoutId => Some(("Error"@, "Failed to update "@ + subject)),
        RemoteCall::DeleteWithoutId => Some(("Error"@, "Failed to delete "@ + subject)),
    }
}

/// Writes the reason and message of the event recorded after a remote call.
pub fn report_outcome(call: RemoteCall, succeeded: bool, kind: &str, name: &str) -> (r: Option<
    (String, String),
>)
    ensures
        match r {
            Some(p) => outcome_event(call, succeeded, kind@, name@) == Some((p.0@, p.1@)),
            None => outcome_event(call, succeeded, kind@, name@) is None,
        },
{
    let subject = kind.to_owned().concat(" ").concat(name);
    match call {
        RemoteCall::Nothing => None,
        RemoteCall::Create => if succeeded {
            Some(("Normal".to_owned(), subject.concat(" created remotely")))
        } else {
            Some(
                (
                    "Error".to_owned(),
                    "Failed to create ".to_owned().concat(subject.as_str()).concat(" remotely"),
                ),
            )
        },
        RemoteCall::Update => if succeeded {
            Some(("Normal".to_owned(), subject.concat(" modified remotely")))
        } else {
            Some(
                (
                    "Error".to_owned(),
                    "Failed to update ".to_owned().concat(subject.as_str()).concat(" remotely"),
                ),
            )
        },
        RemoteCall::Delete => if succeeded {
            Some(("Normal".to_owned(), subject.concat(" deleted remotely")))
        } else {
            Some(
                (
                    "Error".to_owned(),
                    "Failed to delete ".to_owned().concat(subject.as_str()).concat(" remotely"),
                ),
            )
        },
        RemoteCall::UpdateWithoutId => Some(
            ("Error".to_owned(), "Failed to update ".to_owned().concat(subject.as_str())),
        ),
        RemoteCall::DeleteWithoutId => Some(
            ("Error".to_owned(), "Failed to delete ".to_owned().concat(subject.as_str())),
        ),
    }
}

/// An event the operator records about a resource: its reason, the component that
/// reports it, and its message.
#[derive(Debug)]
pub struct EventText {
    pub reason: String,
    pub component: String,
    pub message: String,
}

/// The text of an event.
pub open spec fn event_text(e: EventText) -> (Seq<char>, Seq<char>, Seq<char>) {
    (e.reason@, e.component@, e.message@)
}

/// Writes the text of an event.
pub fn make_event(reason: &str, component: &str, message: String) -> (e: EventText)
    ensures
        event_text(e) == (reason@, component@, message@),
{
    EventText { reason: reason.to_owned(), component: component.to_owned(), message }
}

/// What follows a remote answer: the identifier to record in the resource's status, the
/// event to record, and whether to drop the operator's finalizer.
#[derive(Debug)]
pub struct FollowUp {
    pub record_uuid: Option<String>,
    pub event: Option<EventText>,
    pub remove_finalizer: bool,
}

/// Two optional strings are alike.
pub fn same_optional(a: &Option<String>, b: &Option<String>) -> (r: bool)
    ensures
        r == (a.deep_view() == b.deep_view()),
{
    match (a, b) {
        (Some(x), Some(y)) => crate::text::str_equal(x, y),
        (None, None) => true,
        _ => false,
    }
}

/// Two optional lists of strings are alike.
pub fn same_optional_list(a: &Option<Vec<String>>, b: &Option<Vec<String>>) -> (r: bool)
    ensures
        r == (a.deep_view() == b.deep_view()),
{
    match a {
        None => b.is_none(),
        Some(x) => match b {
            None => false,
            Some(y) => same_list(x, y),
        },
    }
}

/// Two lists of strings are alike.
pub fn same_list(x: &Vec<String>, y: &Vec<String>) -> (r: bool)
    ensures
        r == (x.deep_view() == y.deep_view()),
{
    if x.len() != y.len() {
        assert(x.deep_view().len() != y.deep_view().len());
        return false;
    }
    let mut i: usize = 0;
    while i < x.len()
        invariant
            x.len() == y.len(),
            i <= x.len(),
            forall|k: int| 0 <= k < i ==> x.deep_view()[k] == y.deep_view()[k],
        decreases x.len() - i,
    {
        if !crate::text::str_equal(&x[i], &y[i]) {
            assert(x.deep_view()[i as int] != y.deep_view()[i as int]);
            return false;
        }
        i = i + 1;
    }
    assert(x.deep_view() =~= y.deep_view());
    true
}

/// Two objects' metadata are alike in every field.
pub open spec fn same_metadata(a: ObjectMeta, b: ObjectMeta) -> bool {
    &&& a.name.deep_view() == b.name.deep_view()
    &&& a.namespace.deep_view() == b.namespace.deep_view()
    &&& a.uid.deep_view() == b.uid.deep_view()
    &&& a.generation == b.generation
    &&& a.deletion_timestamp.deep_view() == b.deletion_timestamp.deep_view()
    &&& a.finalizers.deep_view() == b.finalizers.deep_view()
}

/// Tests two objects' metadata for likeness in every field.
pub fn metadata_alike(a: &ObjectMeta, b: &ObjectMeta) -> (r: bool)
    ensures
        r == same_metadata(*a, *b),
{
    same_optional(&a.name, &b.name) && same_optional(&a.namespace, &b.namespace) && same_optional(
        &a.uid,
        &b.uid,
    ) && a.generation == b.generation && same_optional(
        &a.deletion_timestamp,
        &b.deletion_timestamp,
    ) && same_optional_list(&a.finalizers, &b.finalizers)
}

/// A copy of an optional string.
pub fn copy_optional(s: &Option<String>) -> (r: Option<String>)
    ensures
        r.deep_view() == s.deep_view(),
{
    match s {
        Some(v) => Some(v.clone()),
        None => None,
    }
}

} // verus!
