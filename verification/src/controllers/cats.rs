//! The controller of cats: conversions to and from the remote object, and what each
//! event and each remote answer leads to.

use vstd::prelude::*;

use crate::controllers::{
    copy_optional, create_condition, is_condition, ConditionKind, WatchEventKind,
};
use crate::errors::AppError;
use crate::types::cat::{Cat, CatSpec, CatStatus};
use crate::types::dto::Cat as CatDto;

verus! {

/// The remote identifier a cat's status holds, if any.
pub open spec fn cat_uuid(cat: Cat) -> Option<Seq<char>> {
    match cat.status {
        Some(s) => s.uuid.deep_view(),
        None => None,
    }
}

/// Two specs describe the same cat.
pub open spec fn same_spec(a: CatSpec, b: CatSpec) -> bool {
    &&& a.name@ == b.name@
    &&& a.breed@ == b.breed@
    &&& a.age == b.age
}

/// The remote object describes the cat: its identifier and its spec.
pub open spec fn dto_of(dto: CatDto, cat: Cat) -> bool {
    &&& dto.uuid.deep_view() == cat_uuid(cat)
    &&& dto.name@ == cat.spec.name@
    &&& dto.breed@ == cat.spec.breed@
    &&& dto.age == cat.spec.age
}

/// The spec holds what the remote object holds.
pub open spec fn spec_of(spec: CatSpec, dto: CatDto) -> bool {
    &&& spec.name@ == dto.name@
    &&& spec.breed@ == dto.breed@
    &&& spec.age == dto.age
}

/// The remote object of a cat: its identifier and its spec.
pub fn convert_kube_type_to_dto(cat: Cat) -> (dto: CatDto)
    ensures
        dto_of(dto, cat),
{
    let uuid = match cat.status {
        Some(status) => status.uuid,
        None => None,
    };
    CatDto { uuid, name: cat.spec.name, breed: cat.spec.breed, age: cat.spec.age }
}

/// The spec a remote object describes.
pub fn convert_dto_to_kube_type(cat: CatDto) -> (spec: CatSpec)
    ensures
        spec_of(spec, cat),
{
    CatSpec { name: cat.name, breed: cat.breed, age: cat.age }
}

/// The remote object of a cat, leaving the cat as it is.
fn dto_from(cat: &Cat) -> (dto: CatDto)
    ensures
        dto_of(dto, *cat),
{
    let uuid = match &cat.status {
        Some(status) => copy_optional(&status.uuid),
        None => None,
    };
    CatDto {
        uuid,
        name: cat.spec.name.clone(),
        breed: cat.spec.breed.clone(),
        age: cat.spec.age,
    }
}

/// Converting a cat to its remote object and back gives its spec again, and converting
/// a remote object to a spec and back gives the object again.
pub proof fn law_cat_round_trip(cat: Cat, dto: CatDto, spec: CatSpec)
    ensures
        dto_of(dto, cat) && spec_of(spec, dto) ==> same_spec(spec, cat.spec),
        spec_of(spec, dto) && dto_of(dto, cat) ==> same_spec(cat.spec, spec),
{
}

/// What the controller does with a cat after an event.
#[derive(PartialEq, Eq, Structural, Debug, Clone, Copy)]
pub enum CatAction {
    /// Nothing: a bookmark, a deletion already done, or an error.
    Ignore,
    /// Delete the cat remotely.
    Delete,
    /// Compare the cat with the remote one and push it where they differ.
    CheckDrift,
    /// Create the cat remotely.
    Create,
    /// Send the cat's spec to the remote one.
    Update,
}

/// The controller's plan for a cat after an event: whether to give it the empty status
/// first, which condition to record before acting, and the action.
#[derive(PartialEq, Eq, Structural, Debug, Clone, Copy)]
pub struct CatEventPlan {
    pub add_default_status: bool,
    pub progress: Option<ConditionKind>,
    pub action: CatAction,
}

/// The plan for an event on a cat that has a status or not, whose deletion was requested
/// or not, and that has a remote identifier or not.
pub open spec fn event_plan(
    event: WatchEventKind,
    has_status: bool,
    deleting: bool,
    has_uuid: bool,
) -> CatEventPlan {
    match event {
        WatchEventKind::Added => if deleting {
            CatEventPlan {
                add_default_status: !has_status,
                progress: Some(ConditionKind::Deleting),
                action: CatAction::Delete,
            }
        } else if has_uuid {
            CatEventPlan { add_default_status: !has_status, progress: None, action: CatAction::CheckDrift }
        } else {
            CatEventPlan {
                add_default_status: !has_status,
                progress: Some(ConditionKind::Creating),
                action: CatAction::Create,
            }
        },
        WatchEventKind::Modified => CatEventPlan {
            add_default_status: false,
            progress: Some(ConditionKind::Updating),
            action: CatAction::Update,
        },
        _ => CatEventPlan { add_default_status: false, progress: None, action: CatAction::Ignore },
    }
}

/// Decides what an event on a cat leads to.
pub fn handle(event: WatchEventKind, cat: &Cat) -> (plan: CatEventPlan)
    ensures
        plan == event_plan(
            event,
            cat.status is Some,
            cat.metadata.deletion_timestamp is Some,
            cat_uuid(*cat) is Some,
        ),
{
    let has_status = cat.status.is_some();
    let deleting = cat.metadata.deletion_timestamp.is_some();
    let has_uuid = match &cat.status {
        Some(s) => s.uuid.is_some(),
        None => false,
    };
    match event {
        WatchEventKind::Added => {
            if deleting {
                CatEventPlan {
                    add_default_status: !has_status,
                    progress: Some(ConditionKind::Deleting),
                    action: CatAction::Delete,
                }
            } else if has_uuid {
                CatEventPlan {
                    add_default_status: !has_status,
                    progress: None,
                    action: CatAction::CheckDrift,
                }
            } else {
                CatEventPlan {
                    add_default_status: !has_status,
                    progress: Some(ConditionKind::Creating),
                    action: CatAction::Create,
                }
            }
        },
        WatchEventKind::Modified => CatEventPlan {
            add_default_status: false,
            progress: Some(ConditionKind::Updating),
            action: CatAction::Update,
        },
        _ => CatEventPlan { add_default_status: false, progress: None, action: CatAction::Ignore },
    }
}

/// The plan for an event on a cat: an added cat gets the empty status exactly where it
/// has none, and is deleted where its deletion was requested, else checked for drift where
/// it has a remote identifier, else created; it records that it is being deleted or
/// created first, and nothing before a drift check. A modified cat records that it is
/// being updated and is updated. Other events lead to nothing.
pub proof fn law_cat_event_plans(event: WatchEventKind, has_status: bool, deleting: bool, has_uuid: bool)
    ensures
        event_plan(event, has_status, deleting, has_uuid).add_default_status <==> (event is Added
            && !has_status),
        (event is Added && deleting) ==> event_plan(event, has_status, deleting, has_uuid).action
            == CatAction::Delete && event_plan(event, has_status, deleting, has_uuid).progress == Some(
            ConditionKind::Deleting,
        ),
        (event is Added && !deleting && has_uuid) ==> event_plan(event, has_status, deleting, has_uuid).action
            == CatAction::CheckDrift && event_plan(event, has_status, deleting, has_uuid).progress is None,
        (event is Added && !deleting && !has_uuid) ==> event_plan(event, has_status, deleting, has_uuid).action
            == CatAction::Create && event_plan(event, has_status, deleting, has_uuid).progress == Some(
            ConditionKind::Creating,
        ),
        event is Modified ==> event_plan(event, has_status, deleting, has_uuid).action == CatAction::Update
            && event_plan(event, has_status, deleting, has_uuid).progress == Some(ConditionKind::Updating),
        !(event is Added || event is Modified) ==> event_plan(event, has_status, deleting, has_uuid).action
            == CatAction::Ignore && event_plan(event, has_status, deleting, has_uuid).progress is None,
{
}

/// The status a cat is given when it has none: no identifier, no condition.
pub fn default_status() -> (s: CatStatus)
    ensures
        s.uuid is None,
        s.conditions@.len() == 0,
        s.observed_generation is None,
{
    CatStatus { uuid: None, conditions: Vec::new(), observed_generation: None }
}

/// `after` is `before` with one condition of the given kind appended and the generation
/// observed; an absent status stays absent.
pub open spec fn condition_recorded(
    before: Option<CatStatus>,
    after: Option<CatStatus>,
    kind: ConditionKind,
    generation: Option<i64>,
    timestamp: Seq<char>,
) -> bool {
    match before {
        None => after is None,
        Some(b) => match after {
            None => false,
            Some(a) => {
                &&& a.conditions@.len() == b.conditions@.len() + 1
                &&& a.conditions@.drop_last() == b.conditions@
                &&& is_condition(a.conditions@.last(), kind, generation, timestamp)
                &&& a.observed_generation == generation
            },
        },
    }
}

/// Records a condition of the given kind on a cat's status, with the generation it saw.
pub fn record_condition(
    status: Option<CatStatus>,
    kind: ConditionKind,
    generation: Option<i64>,
    timestamp: &str,
) -> (r: Option<CatStatus>)
    ensures
        condition_recorded(status, r, kind, generation, timestamp@),
        r is Some ==> r->0.uuid == status->0.uuid,
{
    match status {
        Some(mut s) => {
            let ghost before = s.conditions@;
            s.conditions.push(create_condition(kind, generation, timestamp));
            assert(s.conditions@.drop_last() =~= before);
            s.observed_generation = generation;
            Some(s)
        },
        None => None,
    }
}

/// Records that a cat was created remotely under `uuid`.
pub fn record_created(
    status: Option<CatStatus>,
    uuid: String,
    generation: Option<i64>,
    timestamp: &str,
) -> (r: Option<CatStatus>)
    ensures
        condition_recorded(status, r, ConditionKind::Created, generation, timestamp@),
        r is Some ==> r->0.uuid == Some(uuid),
{
    let r = record_condition(status, ConditionKind::Created, generation, timestamp);
    match r {
        Some(mut s) => {
            s.uuid = Some(uuid);
            Some(s)
        },
        None => None,
    }
}

/// The remote identifier a cat's status holds, as it is stored.
fn stored_uuid(cat: &Cat) -> (uuid: Option<String>)
    ensures
        uuid.deep_view() == cat_uuid(*cat),
{
    match &cat.status {
        Some(s) => copy_optional(&s.uuid),
        None => None,
    }
}

/// The remote identifier to read a cat by when checking it for drift: the one its status
/// holds, read as a UUID. None where the cat has no identifier or one that is not a UUID,
/// and the check is skipped.
pub fn check_for_drift(cat: &Cat) -> (uuid: Option<String>)
    ensures
        uuid.deep_view() == match cat_uuid(*cat) {
            None => None,
            Some(u) => parsed_uuid(u),
        },
{
    let raw = stored_uuid(cat);
    convert_string_to_uuid(&raw)
}

/// What to send to the remote API after reading the remote cat: the cat's own object
/// where the remote one has drifted from its spec, else nothing.
pub fn drift_update(cat: &Cat, remote: CatDto) -> (push: Option<CatDto>)
    ensures
        push is Some <==> !same_spec(cat.spec, remote_spec(remote)),
        push is Some ==> dto_of(push->0, *cat),
{
    let remote_spec = convert_dto_to_kube_type(remote);
    if crate::text::str_equal(&remote_spec.name, &cat.spec.name) && crate::text::str_equal(
        &remote_spec.breed,
        &cat.spec.breed,
    ) && remote_spec.age == cat.spec.age {
        None
    } else {
        Some(dto_from(cat))
    }
}

/// The spec a remote object describes.
pub open spec fn remote_spec(remote: CatDto) -> CatSpec {
    CatSpec { name: remote.name, breed: remote.breed, age: remote.age }
}

/// A cat's own remote object never counts as drift: checking a cat against the object it
/// converts to sends nothing.
pub proof fn law_own_object_is_no_drift(cat: Cat, dto: CatDto)
    requires
        dto_of(dto, cat),
    ensures
        same_spec(cat.spec, remote_spec(dto)),
{
}

/// The remote identifier to delete a cat by: none where it has no identifier or an
/// empty one, and the deletion is skipped.
pub fn handle_delete_cat_by_id(cat: &Cat) -> (uuid: Option<String>)
    ensures
        uuid is Some <==> (cat_uuid(*cat) is Some && cat_uuid(*cat)->0.len() > 0),
        uuid is Some ==> Some(uuid->0@) == cat_uuid(*cat),
{
    match stored_uuid(cat) {
        Some(u) => {
            if u.as_str().is_empty() {
                None
            } else {
                Some(u)
            }
        },
        None => None,
    }
}

/// The remote identifier and object to update a cat by: none where it has no
/// identifier, and the update is skipped.
pub fn handle_update_cat_by_id(cat: &Cat) -> (update: Option<(String, CatDto)>)
    ensures
        update is Some <==> cat_uuid(*cat) is Some,
        match update {
            Some(p) => Some(p.0@) == cat_uuid(*cat) && dto_of(p.1, *cat),
            None => true,
        },
{
    match stored_uuid(cat) {
        Some(u) => Some((u, dto_from(cat))),
        None => None,
    }
}

/// The object to create a cat remotely with.
pub fn handle_create_cat(cat: &Cat) -> (dto: CatDto)
    ensures
        dto_of(dto, *cat),
{
    dto_from(cat)
}

/// How long the reconciling controller waits before it looks at a cat again, in seconds,
/// after a pass and after an error alike.
pub const REQUEUE_AFTER_IN_SEC: u64 = 30;

/// The steps of one reconciling pass over a cat, in this order: give it the empty status,
/// delete it remotely, record that it is being created and create it, or update it
/// remotely; the pass then checks the cat for drift and asks to be run again later.
#[derive(PartialEq, Eq, Structural, Debug, Clone, Copy)]
pub struct ReconcilePlan {
    pub add_default_status: bool,
    pub delete: bool,
    pub create: bool,
    pub update: bool,
    pub requeue_after_secs: u64,
}

/// The remote identifier a reconciling pass works with: the one in the cat's status, or
/// the empty string.
pub open spec fn pass_uuid(cat: Cat) -> Seq<char> {
    match cat_uuid(cat) {
        Some(u) => u,
        None => Seq::empty(),
    }
}

/// The plan of a reconciling pass over a cat. A cat without an identifier is created; one
/// with an identifier is updated remotely where its generation is not the one its status
/// observed.
pub open spec fn reconcile_plan(cat: Cat) -> ReconcilePlan {
    let create = pass_uuid(cat).len() == 0;
    ReconcilePlan {
        add_default_status: cat.status is None,
        delete: cat.metadata.deletion_timestamp is Some,
        create,
        update: !create && cat.metadata.generation != cat.status->0.observed_generation,
        requeue_after_secs: REQUEUE_AFTER_IN_SEC,
    }
}

/// Decides the steps of a reconciling pass over a cat.
pub fn reconcile(cat: &Cat) -> (plan: ReconcilePlan)
    ensures
        plan == reconcile_plan(*cat),
{
    let (create, update) = match &cat.status {
        Some(s) => match &s.uuid {
            Some(u) => {
                if u.as_str().is_empty() {
                    (true, false)
                } else {
                    (false, cat.metadata.generation != s.observed_generation)
                }
            },
            None => (true, false),
        },
        None => (true, false),
    };
    ReconcilePlan {
        add_default_status: cat.status.is_none(),
        delete: cat.metadata.deletion_timestamp.is_some(),
        create,
        update,
        requeue_after_secs: REQUEUE_AFTER_IN_SEC,
    }
}

/// Gives a cat the status a reconciling pass starts from: no identifier, no condition,
/// generation 0 observed.
pub fn add_default_status(cat: &mut Cat)
    ensures
        final(cat).metadata == old(cat).metadata,
        final(cat).spec == old(cat).spec,
        final(cat).status matches Some(s) && s.uuid is None && s.conditions@.len() == 0
            && s.observed_generation == Some(0i64),
{
    cat.status = Some(
        CatStatus { uuid: None, conditions: Vec::new(), observed_generation: Some(0) },
    );
}


/// What `uuid::Uuid::parse_str` reads from a text, written back in the hyphenated
/// lowercase form of `Uuid`'s `Display`; none where the text is not a UUID.
pub uninterp spec fn parsed_uuid(s: Seq<char>) -> Option<Seq<char>>;

/// Reads a UUID with `uuid::Uuid::parse_str` and writes it back with its `Display`. The
/// contract names the result `parsed_uuid` of the text; the written form has 36
/// characters.
#[verifier::external_body]
fn parse_uuid(s: &str) -> (r: Option<String>)
    ensures
        match r {
            None => parsed_uuid(s@) is None,
            Some(u) => parsed_uuid(s@) == Some(u@) && u@.len() == 36,
        },
{
    uuid::Uuid::parse_str(s).ok().map(|u| u.to_string())
}

/// A remote identifier read as a UUID: none where there is none or where it is not a
/// UUID.
pub fn convert_string_to_uuid(uuid: &Option<String>) -> (r: Option<String>)
    ensures
        r.deep_view() == match *uuid {
            None => None,
            Some(u) => parsed_uuid(u@),
        },
{
    match uuid {
        None => None,
        Some(u) => parse_uuid(u.as_str()),
    }
}

/// The remote object of a cat as the reconciling controller sends it: its identifier read
/// as a UUID, and its spec.
pub open spec fn uuid_dto_of(dto: CatDto, cat: Cat) -> bool {
    &&& dto.uuid.deep_view() == match cat_uuid(cat) {
        None => None,
        Some(u) => parsed_uuid(u),
    }
    &&& dto.name@ == cat.spec.name@
    &&& dto.breed@ == cat.spec.breed@
    &&& dto.age == cat.spec.age
}

/// Whether a reconciling pass deletes a cat remotely by the identifier it holds: not
/// where that identifier is empty.
pub fn handle_delete(uuid: &str) -> (r: bool)
    ensures
        r == (uuid@.len() > 0),
{
    !uuid.is_empty()
}

/// The update a reconciling pass sends for a cat by the identifier it holds: an error
/// where that identifier is empty, else the cat's remote object.
pub fn handle_update(cat: &Cat, uuid: &str) -> (r: Result<CatDto, AppError>)
    ensures
        uuid@.len() == 0 ==> (r matches Err(AppError::Other(m)) && m@ == "uuid is empty"@),
        uuid@.len() > 0 ==> (r matches Ok(d) && uuid_dto_of(d, *cat)),
{
    if uuid.is_empty() {
        return Err(AppError::Other("uuid is empty".to_owned()));
    }
    let raw = stored_uuid(cat);
    Ok(
        CatDto {
            uuid: convert_string_to_uuid(&raw),
            name: cat.spec.name.clone(),
            breed: cat.spec.breed.clone(),
            age: cat.spec.age,
        },
    )
}

} // verus!
