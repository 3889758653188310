//! What the operator decides about its custom resources' metadata and events.

use vstd::prelude::*;

use crate::text::{contains_string, lowercase, to_lowercase};
use crate::types::ObjectMeta;

verus! {

/// The finalizer the operator puts on the resources it manages.
pub open spec fn finalizer_name() -> Seq<char> {
    "finalizers.example.com"@
}

/// The finalizers of an object, an absent list counting as empty.
pub open spec fn finalizer_list(finalizers: Option<Seq<Seq<char>>>) -> Seq<Seq<char>> {
    match finalizers {
        Some(l) => l,
        None => Seq::empty(),
    }
}

/// The finalizers after adding the operator's: unchanged where it is there already,
/// else with it at the end.
pub open spec fn with_finalizer(finalizers: Option<Seq<Seq<char>>>) -> Seq<Seq<char>> {
    let l = finalizer_list(finalizers);
    if l.contains(finalizer_name()) {
        l
    } else {
        l.push(finalizer_name())
    }
}

/// Holds of the finalizers other than the operator's.
pub open spec fn not_operator_finalizer() -> spec_fn(Seq<char>) -> bool {
    |f: Seq<char>| f != finalizer_name()
}

/// The finalizers without the operator's, every occurrence of it removed.
pub open spec fn without_finalizer(l: Seq<Seq<char>>) -> Seq<Seq<char>> {
    l.filter(not_operator_finalizer())
}

/// Adds the operator's finalizer to an object's finalizers, making the list present.
/// Returns whether the list changed, so that the object needs to be patched.
pub fn add_finalizer(finalizers: &mut Option<Vec<String>>) -> (changed: bool)
    ensures
        final(finalizers).deep_view() == Some(with_finalizer(old(finalizers).deep_view())),
        changed == !finalizer_list(old(finalizers).deep_view()).contains(finalizer_name()),
{
    let fin = "finalizers.example.com".to_owned();
    let mut list = match finalizers.take() {
        Some(l) => l,
        None => Vec::new(),
    };
    assert(list.deep_view() == finalizer_list(old(finalizers).deep_view()));
    if crate::text::contains_string(&list, &fin) {
        *finalizers = Some(list);
        return false;
    }
    let ghost before = list.deep_view();
    list.push(fin);
    assert(list.deep_view() =~= before.push(finalizer_name()));
    *finalizers = Some(list);
    true
}

/// Removes the operator's finalizer from an object's finalizers, where the list is
/// present and has it. Returns whether the list changed.
pub fn remove_finalizer(finalizers: &mut Option<Vec<String>>) -> (changed: bool)
    ensures
        changed == (old(finalizers).deep_view() matches Some(l) && l.contains(finalizer_name())),
        changed ==> final(finalizers).deep_view() == Some(
            without_finalizer(finalizer_list(old(finalizers).deep_view())),
        ),
        !changed ==> final(finalizers).deep_view() == old(finalizers).deep_view(),
{
    let fin = "finalizers.example.com".to_owned();
    let list = match finalizers.take() {
        Some(l) => l,
        None => {
            return false;
        },
    };
    let ghost l = list.deep_view();
    if !crate::text::contains_string(&list, &fin) {
        *finalizers = Some(list);
        return false;
    }
    let mut kept: Vec<String> = Vec::new();
    let mut i: usize = 0;
    while i < list.len()
        invariant
            i <= list.len(),
            l == list.deep_view(),
            fin@ == finalizer_name(),
            kept.deep_view() == l.subrange(0, i as int).filter(not_operator_finalizer()),
        decreases list.len() - i,
    {
        assert(l.subrange(0, i + 1).drop_last() =~= l.subrange(0, i as int));
        reveal_with_fuel(Seq::filter, 1);
        if !(list[i] == fin) {
            let ghost before = kept.deep_view();
            kept.push(list[i].clone());
            assert(kept.deep_view() =~= before.push(l[i as int]));
        }
        i = i + 1;
    }
    assert(l.subrange(0, i as int) =~= l);
    *finalizers = Some(kept);
    true
}

/// Adding the operator's finalizer a second time changes nothing.
pub proof fn law_add_finalizer_idempotent(finalizers: Option<Seq<Seq<char>>>)
    ensures
        with_finalizer(Some(with_finalizer(finalizers))) == with_finalizer(finalizers),
        with_finalizer(finalizers).contains(finalizer_name()),
{
    let l = finalizer_list(finalizers);
    if !l.contains(finalizer_name()) {
        assert(l.push(finalizer_name())[l.len() as int] == finalizer_name());
    }
}

/// Removing the operator's finalizer leaves none of it, keeps the others in order, and
/// undoes adding it.
pub proof fn law_remove_finalizer_undoes_add(finalizers: Option<Seq<Seq<char>>>)
    ensures
        !without_finalizer(finalizer_list(finalizers)).contains(finalizer_name()),
        without_finalizer(with_finalizer(finalizers)) == without_finalizer(
            finalizer_list(finalizers),
        ),
        !finalizer_list(finalizers).contains(finalizer_name()) ==> without_finalizer(
            finalizer_list(finalizers),
        ) == finalizer_list(finalizers),
{
    let l = finalizer_list(finalizers);
    let p = not_operator_finalizer();
    if without_finalizer(l).contains(finalizer_name()) {
        l.lemma_filter_contains_rev(p, finalizer_name());
        let k = choose|k: int| 0 <= k < without_finalizer(l).len() && without_finalizer(l)[k]
            == finalizer_name();
        l.lemma_filter_pred(p, k);
    }
    if !l.contains(finalizer_name()) {
        reveal_with_fuel(Seq::filter, 1);
        assert(l.push(finalizer_name()).drop_last() =~= l);
        lemma_filter_all_kept(l);
    }
}

proof fn lemma_filter_all_kept(l: Seq<Seq<char>>)
    requires
        !l.contains(finalizer_name()),
    ensures
        l.filter(not_operator_finalizer()) == l,
    decreases l.len(),
{
    reveal_with_fuel(Seq::filter, 1);
    if l.len() > 0 {
        assert(!l.drop_last().contains(finalizer_name())) by {
            if l.drop_last().contains(finalizer_name()) {
                let k = choose|k: int| 0 <= k < l.drop_last().len() && l.drop_last()[k]
                    == finalizer_name();
                assert(l[k] == finalizer_name());
            }
        }
        lemma_filter_all_kept(l.drop_last());
        assert(l[l.len() - 1] != finalizer_name());
        assert(l.drop_last().push(l.last()) =~= l);
    }
}

/// Whether the operator installs its CRDs: where the `INSTALL_CRDS` variable, or the
/// empty string where it is not set, lowercases to `true`.
pub fn should_install_crds(value: &Option<String>) -> (r: bool)
    ensures
        r == (lowercase(
            match value {
                Some(v) => v@,
                None => ""@,
            },
        ) == "true"@),
{
    let lowered = match value {
        Some(v) => to_lowercase(v.as_str()),
        None => to_lowercase(""),
    };
    crate::text::str_equal(lowered.as_str(), "true")
}

/// Whether some installed CRD belongs to the operator's group.
pub fn check_any_crd_from_group(groups: &Vec<String>, group: &str) -> (r: bool)
    ensures
        r == groups.deep_view().contains(group@),
{
    contains_string(groups, &group.to_owned())
}

/// The name a CRD is reported by: its own, or `Unnamed CRD`.
pub fn crd_name_or_default(name: &Option<String>) -> (r: String)
    ensures
        r@ == match name {
            Some(n) => n@,
            None => "Unnamed CRD"@,
        },
{
    match name {
        Some(n) => n.clone(),
        None => "Unnamed CRD".to_owned(),
    }
}

/// What follows an attempt to create a CRD.
#[derive(PartialEq, Eq, Structural, Debug, Clone, Copy)]
pub enum CrdDeployStep {
    /// The CRD was created.
    Created,
    /// The CRD exists already: replace it.
    Replace,
    /// The creation failed otherwise.
    Failed,
}

/// Decides what follows an attempt to create a CRD, from its outcome: success, or an
/// error with the API's status code where the API answered.
pub fn deploy_crd(outcome: Result<(), Option<u16>>) -> (step: CrdDeployStep)
    ensures
        step == match outcome {
            Ok(()) => CrdDeployStep::Created,
            Err(Some(code)) => if code == 409 {
                CrdDeployStep::Replace
            } else {
                CrdDeployStep::Failed
            },
            Err(None) => CrdDeployStep::Failed,
        },
{
    match outcome {
        Ok(()) => CrdDeployStep::Created,
        Err(Some(code)) => if code == 409 {
            CrdDeployStep::Replace
        } else {
            CrdDeployStep::Failed
        },
        Err(None) => CrdDeployStep::Failed,
    }
}

/// An event about a custom resource, as the operator records it.
#[derive(Debug)]
pub struct EventRecord {
    /// The namespace the event is created in.
    pub namespace: String,
    /// The event's name: the resource's name, a dash and the time.
    pub name: String,
    pub involved_kind: String,
    pub involved_namespace: Option<String>,
    pub involved_name: String,
    pub involved_uid: Option<String>,
    pub reason: String,
    pub message: String,
    /// The event type, always `Normal`.
    pub type_: String,
    /// The component that reports the event.
    pub component: String,
}

/// The event about a resource that `reason` and `message` describe, reported by `from`
/// at `timestamp`.
pub fn add_event(
    kind: String,
    metadata: &ObjectMeta,
    reason: &str,
    from: &str,
    message: &str,
    timestamp: &str,
) -> (r: EventRecord)
    requires
        metadata.name is Some,
    ensures
        r.namespace@ == match metadata.namespace {
            Some(n) => n@,
            None => Seq::empty(),
        },
        r.name@ == metadata.name->0@ + "-"@ + timestamp@,
        r.involved_kind@ == kind@,
        r.involved_namespace.deep_view() == metadata.namespace.deep_view(),
        r.involved_name@ == metadata.name->0@,
        r.involved_uid.deep_view() == metadata.uid.deep_view(),
        r.reason@ == reason@,
        r.message@ == message@,
        r.type_@ == "Normal"@,
        r.component@ == from@,
{
    let name = match &metadata.name {
        Some(n) => n.clone(),
        None => String::new(),
    };
    let namespace = match &metadata.namespace {
        Some(n) => n.clone(),
        None => String::new(),
    };
    let involved_namespace = match &metadata.namespace {
        Some(n) => Some(n.clone()),
        None => None,
    };
    let involved_uid = match &metadata.uid {
        Some(u) => Some(u.clone()),
        None => None,
    };
    EventRecord {
        namespace,
        name: name.clone().concat("-").concat(timestamp),
        involved_kind: kind,
        involved_namespace,
        involved_name: name,
        involved_uid,
        reason: reason.to_owned(),
        message: message.to_owned(),
        type_: "Normal".to_owned(),
        component: from.to_owned(),
    }
}

} // verus!
