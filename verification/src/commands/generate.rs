//! Generation of an operator project's code and manifests from an OpenAPI document.

use vstd::prelude::*;

use crate::errors::AppError;
use crate::inflect::{
    class_case, plural, singular, snake_case, to_class_case, to_plural, to_singular, to_snake_case,
};
use crate::order::{
    less_than, lemma_str_lt_total,
    lemma_str_lt_transitive, sort_strings, sorted, str_lt,
};
use crate::templates::crdgen::Main as CrdgenMain;
use crate::templates::manifests::rbac::{ClusterRole, Role};
use crate::templates::operator::{
    Controller, ControllerActionDelete, ControllerActionPost, ControllerActionPut, Main, Type,
};
use crate::templates::{ClusterRoleTemplateIdentifiers, RoleTemplateIdentifiers};
use crate::utils::{is_ignored, joined_path, mod_line, mod_line_of, path_join, uppercase_first_letter};
use crate::config::clone_strings;
use crate::openapi::{find_entry, lookup, ObjectSchema, PathOperation, PathItem, PropertyKind, ComponentSchema};
use crate::templates::{ControllerAttributes, Field};
use crate::text::{
    capitalized, contains_string, has_prefix, join, lines, lines_of, lowercase, starts_with,
    to_lowercase,
};
use crate::templates::{Metadata, Resource};
use crate::templates::manifests::examples::Example;
use crate::templates::manifests::operator::{Deployment, Secret};

verus! {

/// The Rust type of a property of a given kind, where the generator knows one.
pub open spec fn base_field_type(kind: PropertyKind) -> Option<Seq<char>> {
    match kind {
        PropertyKind::String => Some("String"@),
        PropertyKind::Integer => Some("i32"@),
        PropertyKind::Number => Some("f64"@),
        PropertyKind::Boolean => Some("bool"@),
        PropertyKind::Array => Some("Vec<_>"@),
        _ => None,
    }
}

/// The Rust type of a field: its base type, wrapped in `Option` where the property is
/// not required.
pub open spec fn field_type_of(base: Seq<char>, required: bool) -> Seq<char> {
    if required {
        base
    } else {
        "Option<"@ + base + ">"@
    }
}

/// The fields of an object's properties: those of a known kind, except the remote
/// resource reference, in property order.
pub open spec fn fields_of(
    properties: Seq<(String, PropertyKind)>,
    required: Seq<Seq<char>>,
    resource_ref: Seq<char>,
) -> Seq<(Seq<char>, Seq<char>)>
    decreases properties.len(),
{
    if properties.len() == 0 {
        Seq::empty()
    } else {
        let rest = fields_of(properties.drop_last(), required, resource_ref);
        let name = properties.last().0@;
        match base_field_type(properties.last().1) {
            Some(base) => if name != resource_ref {
                rest.push((name, field_type_of(base, required.contains(name))))
            } else {
                rest
            },
            None => rest,
        }
    }
}

/// The fields of the schema named `name`: `None` where there is no such schema, and
/// none for a schema that is not an object.
pub open spec fn schema_fields(
    schemas: Seq<(String, ComponentSchema)>,
    name: Seq<char>,
    resource_ref: Seq<char>,
) -> Option<Seq<(Seq<char>, Seq<char>)>> {
    match lookup(schemas, name) {
        None => None,
        Some(ComponentSchema::Reference) => None,
        Some(ComponentSchema::Object(o)) => Some(
            fields_of(o.properties@, o.required.deep_view(), resource_ref),
        ),
        Some(ComponentSchema::Other) => Some(Seq::empty()),
    }
}

/// The Rust type of a property, where the generator knows one.
fn base_type_for(kind: &PropertyKind) -> (r: Option<String>)
    ensures
        match base_field_type(*kind) {
            None => r is None,
            Some(b) => r matches Some(s) && s@ == b,
        },
{
    match kind {
        PropertyKind::String => Some("String".to_owned()),
        PropertyKind::Integer => Some("i32".to_owned()),
        PropertyKind::Number => Some("f64".to_owned()),
        PropertyKind::Boolean => Some("bool".to_owned()),
        PropertyKind::Array => Some("Vec<_>".to_owned()),
        _ => None,
    }
}

/// The fields of an object schema.
fn object_fields(object: &ObjectSchema, resource_ref: &str) -> (r: Vec<Field>)
    ensures
        r.deep_view() == fields_of(
            object.properties@,
            object.required.deep_view(),
            resource_ref@,
        ),
{
    let rref = resource_ref.to_owned();
    let mut fields: Vec<Field> = Vec::new();
    let mut i: usize = 0;
    while i < object.properties.len()
        invariant
            rref@ == resource_ref@,
            i <= object.properties@.len(),
            fields.deep_view() == fields_of(
                object.properties@.subrange(0, i as int),
                object.required.deep_view(),
                resource_ref@,
            ),
        decreases object.properties.len() - i,
    {
        let ghost before = object.properties@.subrange(0, i as int);
        assert(object.properties@.subrange(0, i + 1).drop_last() =~= before);
        let name = &object.properties[i].0;
        if let Some(base) = base_type_for(&object.properties[i].1) {
            if *name != rref {
                let required = contains_string(&object.required, name);
                let field_type = if required {
                    base
                } else {
                    "Option<".to_owned().concat(base.as_str()).concat(">")
                };
                let ghost old_fields = fields.deep_view();
                let field = Field { pub_name: name.clone(), field_type };
                fields.push(field);
                assert(fields.deep_view() =~= old_fields.push(field@));
            }
        }
        i = i + 1;
    }
    assert(object.properties@.subrange(0, i as int) =~= object.properties@);
    fields
}

/// The fields of the type generated for the schema named `schema_name`, without the
/// remote resource reference.
pub fn get_fields_for_type(
    schemas: &Vec<(String, ComponentSchema)>,
    schema_name: &str,
    operator_resource_ref: &str,
) -> (r: Result<Vec<Field>, AppError>)
    ensures
        match schema_fields(schemas@, schema_name@, operator_resource_ref@) {
            None => r matches Err(AppError::Other(m)) && m@ == "Schema not found for type: "@
                + schema_name@,
            Some(fields) => r matches Ok(v) && v.deep_view() == fields,
        },
{
    let not_found = "Schema not found for type: ".to_owned().concat(schema_name);
    match find_entry(schemas, schema_name) {
        None => Err(AppError::Other(not_found)),
        Some(i) => match &schemas[i].1 {
            ComponentSchema::Reference => Err(AppError::Other(not_found)),
            ComponentSchema::Object(object) => Ok(object_fields(object, operator_resource_ref)),
            ComponentSchema::Other => {
                let v: Vec<Field> = Vec::new();
                assert(v.deep_view() =~= Seq::<(Seq<char>, Seq<char>)>::empty());
                Ok(v)
            },
        },
    }
}

/// The first of an operation's tags that is one of the included tags.
pub open spec fn first_included(tags: Seq<String>, include_tags: Seq<Seq<char>>) -> Option<
    Seq<char>,
>
    decreases tags.len(),
{
    if tags.len() == 0 {
        None
    } else if include_tags.contains(tags[0]@) {
        Some(tags[0]@)
    } else {
        first_included(tags.drop_first(), include_tags)
    }
}

/// The view of a summary that may be absent: absent counts as empty.
pub open spec fn summary_text(summary: Option<String>) -> Seq<char> {
    match summary {
        Some(s) => s@,
        None => Seq::empty(),
    }
}

/// The controller tag of an operation with the attributes of its action: `None` where
/// the operation has no included tag or no operation id.
pub open spec fn attributes_of(
    operation: PathOperation,
    http_method: Seq<char>,
    include_tags: Seq<Seq<char>>,
) -> Option<(Seq<char>, (Seq<char>, Seq<char>, Seq<char>))> {
    match first_included(operation.tags@, include_tags) {
        None => None,
        Some(tag) => match operation.operation_id {
            None => None,
            Some(id) => Some(
                (tag, (snake_case(id@), http_method, lowercase(summary_text(operation.summary)))),
            ),
        },
    }
}

/// The first of the tags that is one of the included tags.
fn find_included_tag(tags: &Vec<String>, include_tags: &Vec<String>) -> (r: Option<String>)
    ensures
        match first_included(tags@, include_tags.deep_view()) {
            None => r is None,
            Some(t) => r matches Some(s) && s@ == t,
        },
{
    let mut i: usize = 0;
    assert(tags@.subrange(0, tags@.len() as int) =~= tags@);
    while i < tags.len()
        invariant
            i <= tags@.len(),
            first_included(tags@, include_tags.deep_view()) == first_included(
                tags@.subrange(i as int, tags@.len() as int),
                include_tags.deep_view(),
            ),
        decreases tags.len() - i,
    {
        let ghost rest = tags@.subrange(i as int, tags@.len() as int);
        assert(rest[0] == tags@[i as int]);
        assert(rest.drop_first() =~= tags@.subrange(i + 1, tags@.len() as int));
        if contains_string(include_tags, &tags[i]) {
            return Some(tags[i].clone());
        }
        i = i + 1;
    }
    None
}

/// The controller tag of an operation with the attributes of its action.
pub fn get_controller_attributes_for_operation(
    operation: &PathOperation,
    http_method: &str,
    include_tags: &Vec<String>,
) -> (r: Option<(String, ControllerAttributes)>)
    ensures
        match attributes_of(*operation, http_method@, include_tags.deep_view()) {
            None => r is None,
            Some((tag, attributes)) => r matches Some((t, a)) && t@ == tag && a@ == attributes,
        },
{
    let tag = find_included_tag(&operation.tags, include_tags)?;
    let operation_id = match &operation.operation_id {
        Some(id) => id,
        None => {
            return None;
        },
    };
    let summary = match &operation.summary {
        Some(s) => s.clone(),
        None => String::new(),
    };
    let attributes = ControllerAttributes {
        operation_id: to_snake_case(operation_id.as_str()),
        http_method: http_method.to_owned(),
        action_summary: to_lowercase(summary.as_str()),
    };
    Some((tag, attributes))
}


/// The position of the group of `tag`, or the number of groups where there is none.
pub open spec fn group_index<A>(groups: Seq<(Seq<char>, Seq<A>)>, tag: Seq<char>) -> int
    decreases groups.len(),
{
    if groups.len() == 0 {
        0
    } else if groups[0].0 == tag {
        0
    } else {
        1 + group_index(groups.drop_first(), tag)
    }
}

proof fn lemma_group_index<A>(groups: Seq<(Seq<char>, Seq<A>)>, tag: Seq<char>, i: int)
    requires
        0 <= i <= groups.len(),
        forall|k: int| 0 <= k < i ==> groups[k].0 != tag,
        i == groups.len() || groups[i].0 == tag,
    ensures
        group_index(groups, tag) == i,
    decreases i,
{
    if i > 0 {
        lemma_group_index(groups.drop_first(), tag, i - 1);
    }
}

/// The groups with `item` added to the group of `tag`, or a new group for `tag` at the
/// end where there is none.
pub open spec fn add_to_group<A>(groups: Seq<(Seq<char>, Seq<A>)>, tag: Seq<char>, item: A) -> Seq<
    (Seq<char>, Seq<A>),
> {
    let k = group_index(groups, tag);
    if k < groups.len() {
        groups.update(k, (tag, groups[k].1.push(item)))
    } else {
        groups.push((tag, seq![item]))
    }
}

/// The groups after one method of a path: the operation's attributes go to the group
/// of its tag.
pub open spec fn groups_after_operation(
    groups: Seq<(Seq<char>, Seq<(Seq<char>, Seq<char>, Seq<char>)>)>,
    operation: Option<PathOperation>,
    http_method: Seq<char>,
    include_tags: Seq<Seq<char>>,
) -> Seq<(Seq<char>, Seq<(Seq<char>, Seq<char>, Seq<char>)>)> {
    match operation {
        None => groups,
        Some(op) => match attributes_of(op, http_method, include_tags) {
            None => groups,
            Some((tag, attributes)) => add_to_group(groups, tag, attributes),
        },
    }
}

/// The groups after a path: its get, post, delete and put operations, in that order.
pub open spec fn groups_after_path(
    groups: Seq<(Seq<char>, Seq<(Seq<char>, Seq<char>, Seq<char>)>)>,
    path: Option<PathItem>,
    include_tags: Seq<Seq<char>>,
) -> Seq<(Seq<char>, Seq<(Seq<char>, Seq<char>, Seq<char>)>)> {
    match path {
        None => groups,
        Some(item) => groups_after_operation(
            groups_after_operation(
                groups_after_operation(
                    groups_after_operation(groups, item.get, "get"@, include_tags),
                    item.post,
                    "post"@,
                    include_tags,
                ),
                item.delete,
                "delete"@,
                include_tags,
            ),
            item.put,
            "put"@,
            include_tags,
        ),
    }
}

/// The controllers of the paths: for each included tag that some operation carries, the
/// attributes of its operations in path and method order; tags in order of appearance.
pub open spec fn controllers_of(paths: Seq<Option<PathItem>>, include_tags: Seq<Seq<char>>) -> Seq<
    (Seq<char>, Seq<(Seq<char>, Seq<char>, Seq<char>)>),
>
    decreases paths.len(),
{
    if paths.len() == 0 {
        Seq::empty()
    } else {
        groups_after_path(controllers_of(paths.drop_last(), include_tags), paths.last(), include_tags)
    }
}

/// Groups are well formed: their tags are distinct and included, and none is empty.
pub open spec fn groups_well_formed(
    groups: Seq<(Seq<char>, Seq<(Seq<char>, Seq<char>, Seq<char>)>)>,
    include_tags: Seq<Seq<char>>,
) -> bool {
    &&& forall|i: int, j: int| 0 <= i < j < groups.len() ==> #[trigger] groups[i].0 != #[trigger] groups[j].0
    &&& forall|i: int| 0 <= i < groups.len() ==> include_tags.contains(#[trigger] groups[i].0)
    &&& forall|i: int| 0 <= i < groups.len() ==> (#[trigger] groups[i].1).len() > 0
}

proof fn lemma_first_included_is_included(tags: Seq<String>, include_tags: Seq<Seq<char>>)
    ensures
        first_included(tags, include_tags) matches Some(t) ==> include_tags.contains(t),
    decreases tags.len(),
{
    if tags.len() > 0 {
        lemma_first_included_is_included(tags.drop_first(), include_tags);
    }
}

/// Adds an operation's attributes to the group of its tag.
fn add_operation(
    groups: &mut Vec<(String, Vec<ControllerAttributes>)>,
    operation: &Option<PathOperation>,
    http_method: &str,
    include_tags: &Vec<String>,
)
    requires
        groups_well_formed(old(groups).deep_view(), include_tags.deep_view()),
    ensures
        groups_well_formed(final(groups).deep_view(), include_tags.deep_view()),
        final(groups).deep_view() == groups_after_operation(
            old(groups).deep_view(),
            *operation,
            http_method@,
            include_tags.deep_view(),
        ),
{
    let op = match operation {
        Some(op) => op,
        None => {
            return;
        },
    };
    let (tag, attributes) = match get_controller_attributes_for_operation(
        op,
        http_method,
        include_tags,
    ) {
        Some(pair) => pair,
        None => {
            return;
        },
    };
    proof {
        lemma_first_included_is_included(op.tags@, include_tags.deep_view());
    }
    let ghost old_groups = groups.deep_view();
    let mut k: usize = 0;
    while k < groups.len() && !(groups[k].0 == tag)
        invariant
            groups.deep_view() == old_groups,
            k <= groups.len(),
            forall|j: int| 0 <= j < k ==> old_groups[j].0 != tag@,
        decreases groups.len() - k,
    {
        k = k + 1;
    }
    if k < groups.len() {
        proof {
            lemma_group_index(old_groups, tag@, k as int);
        }
        let ghost old_exec = groups@;
        let mut entry = groups.remove(k);
        let ghost old_entry = entry.deep_view();
        entry.1.push(attributes);
        assert(entry.1.deep_view() =~= old_entry.1.push(attributes@));
        assert(entry.deep_view() == (old_entry.0, old_entry.1.push(attributes@)));
        groups.insert(k, entry);
        assert(groups@ =~= old_exec.update(k as int, entry));
        assert(old_groups[k as int] == old_entry);
        assert(groups.deep_view() =~= old_groups.update(
            k as int,
            (tag@, old_groups[k as int].1.push(attributes@)),
        ));
    } else {
        proof {
            lemma_group_index(old_groups, tag@, k as int);
        }
        let mut items: Vec<ControllerAttributes> = Vec::new();
        items.push(attributes);
        let ghost a = items.deep_view();
        assert(a =~= seq![attributes@]);
        groups.push((tag, items));
        assert(groups.deep_view() =~= old_groups.push((tag@, seq![attributes@])));
    }
}

/// Groups the operations of the paths into controllers, one per included tag.
pub fn group_controllers(paths: &Vec<Option<PathItem>>, include_tags: &Vec<String>) -> (r: Vec<
    (String, Vec<ControllerAttributes>),
>)
    ensures
        r.deep_view() == controllers_of(paths@, include_tags.deep_view()),
        groups_well_formed(r.deep_view(), include_tags.deep_view()),
{
    let mut groups: Vec<(String, Vec<ControllerAttributes>)> = Vec::new();
    let mut i: usize = 0;
    assert(groups.deep_view() =~= Seq::<(Seq<char>, Seq<(Seq<char>, Seq<char>, Seq<char>)>)>::empty());
    while i < paths.len()
        invariant
            i <= paths@.len(),
            groups.deep_view() == controllers_of(paths@.subrange(0, i as int), include_tags.deep_view()),
            groups_well_formed(groups.deep_view(), include_tags.deep_view()),
        decreases paths.len() - i,
    {
        assert(paths@.subrange(0, i + 1).drop_last() =~= paths@.subrange(0, i as int));
        match &paths[i] {
            None => {},
            Some(item) => {
                add_operation(&mut groups, &item.get, "get", include_tags);
                add_operation(&mut groups, &item.post, "post", include_tags);
                add_operation(&mut groups, &item.delete, "delete", include_tags);
                add_operation(&mut groups, &item.put, "put", include_tags);
            },
        }
        i = i + 1;
    }
    assert(paths@.subrange(0, i as int) =~= paths@);
    groups
}


/// The operation in one of a path item's method slots: `get`, `post`, `delete` and `put`
/// in this order.
pub open spec fn slot_operation(item: PathItem, slot: int) -> Option<PathOperation> {
    if slot == 0 {
        item.get
    } else if slot == 1 {
        item.post
    } else if slot == 2 {
        item.delete
    } else {
        item.put
    }
}

/// The HTTP method of a path item's method slot.
pub open spec fn slot_method(slot: int) -> Seq<char> {
    if slot == 0 {
        "get"@
    } else if slot == 1 {
        "post"@
    } else if slot == 2 {
        "delete"@
    } else {
        "put"@
    }
}

/// `action` of the controller of `tag` is the operation in method slot `slot` of path
/// `p`: that operation's first included tag is `tag`, and the action is its snake-cased
/// identifier, the slot's HTTP method and its lowercased summary.
pub open spec fn action_from_slot(
    paths: Seq<Option<PathItem>>,
    include_tags: Seq<Seq<char>>,
    tag: Seq<char>,
    action: (Seq<char>, Seq<char>, Seq<char>),
    p: int,
    slot: int,
) -> bool {
    &&& 0 <= p < paths.len()
    &&& 0 <= slot < 4
    &&& paths[p] is Some
    &&& slot_operation(paths[p]->0, slot) is Some
    &&& slot_operation(paths[p]->0, slot)->0.operation_id is Some
    &&& first_included(slot_operation(paths[p]->0, slot)->0.tags@, include_tags) == Some(tag)
    &&& action == (
        snake_case(slot_operation(paths[p]->0, slot)->0.operation_id->0@),
        slot_method(slot),
        lowercase(summary_text(slot_operation(paths[p]->0, slot)->0.summary)),
    )
}

/// `action` of the controller of `tag` is the operation in some method slot of some path,
/// as `action_from_slot` says.
pub open spec fn action_traced(
    paths: Seq<Option<PathItem>>,
    include_tags: Seq<Seq<char>>,
    tag: Seq<char>,
    action: (Seq<char>, Seq<char>, Seq<char>),
) -> bool {
    exists|p: int, slot: int| action_from_slot(paths, include_tags, tag, action, p, slot)
}

/// Every action of every group is traced to a method slot of one of the paths.
pub open spec fn actions_from_slots(
    groups: Seq<(Seq<char>, Seq<(Seq<char>, Seq<char>, Seq<char>)>)>,
    paths: Seq<Option<PathItem>>,
    include_tags: Seq<Seq<char>>,
) -> bool {
    forall|g: int, j: int|
        0 <= g < groups.len() && 0 <= j < groups[g].1.len() ==> #[trigger] action_traced(
            paths,
            include_tags,
            groups[g].0,
            groups[g].1[j],
        )
}

proof fn lemma_group_index_bounds<A>(groups: Seq<(Seq<char>, Seq<A>)>, tag: Seq<char>)
    ensures
        0 <= group_index(groups, tag) <= groups.len(),
        group_index(groups, tag) < groups.len() ==> groups[group_index(groups, tag)].0 == tag,
    decreases groups.len(),
{
    if groups.len() > 0 && groups[0].0 != tag {
        lemma_group_index_bounds(groups.drop_first(), tag);
        let k = group_index(groups.drop_first(), tag);
        if k < groups.drop_first().len() {
            assert(groups.drop_first()[k] == groups[k + 1]);
        }
    }
}

/// Adding the operation of a slot of one of the paths keeps every action traced to its
/// slot.
proof fn lemma_operation_from_slot(
    groups: Seq<(Seq<char>, Seq<(Seq<char>, Seq<char>, Seq<char>)>)>,
    paths: Seq<Option<PathItem>>,
    include_tags: Seq<Seq<char>>,
    p: int,
    slot: int,
)
    requires
        actions_from_slots(groups, paths, include_tags),
        0 <= p < paths.len(),
        0 <= slot < 4,
        paths[p] is Some,
    ensures
        actions_from_slots(
            groups_after_operation(
                groups,
                slot_operation(paths[p]->0, slot),
                slot_method(slot),
                include_tags,
            ),
            paths,
            include_tags,
        ),
{
    let op = slot_operation(paths[p]->0, slot);
    if let Some(o) = op {
        if let Some((tag, action)) = attributes_of(o, slot_method(slot), include_tags) {
            assert(action_from_slot(paths, include_tags, tag, action, p, slot));
            lemma_group_index_bounds(groups, tag);
            let k = group_index(groups, tag);
            let n = add_to_group(groups, tag, action);
            assert forall|g: int, j: int|
                0 <= g < n.len() && 0 <= j < n[g].1.len() implies #[trigger] action_traced(
                paths,
                include_tags,
                n[g].0,
                n[g].1[j],
            ) by {
                if k < groups.len() {
                    if g == k && j == groups[k].1.len() {
                        assert(n[g].1[j] == action);
                        assert(action_from_slot(paths, include_tags, n[g].0, n[g].1[j], p, slot));
                    } else {
                        assert(n[g].0 == groups[g].0);
                        assert(n[g].1[j] == groups[g].1[j]);
                        assert(action_traced(paths, include_tags, groups[g].0, groups[g].1[j]));
                    }
                } else {
                    if g == groups.len() {
                        assert(n[g].1[j] == action);
                        assert(action_from_slot(paths, include_tags, n[g].0, n[g].1[j], p, slot));
                    } else {
                        assert(n[g] == groups[g]);
                        assert(action_traced(paths, include_tags, groups[g].0, groups[g].1[j]));
                    }
                }
            }
        }
    }
}

/// Adding the operations of the last path keeps every action traced to its slot.
proof fn lemma_path_from_slots(
    groups: Seq<(Seq<char>, Seq<(Seq<char>, Seq<char>, Seq<char>)>)>,
    paths: Seq<Option<PathItem>>,
    include_tags: Seq<Seq<char>>,
)
    requires
        actions_from_slots(groups, paths, include_tags),
        paths.len() > 0,
    ensures
        actions_from_slots(groups_after_path(groups, paths.last(), include_tags), paths, include_tags),
{
    let p = paths.len() - 1;
    if let Some(item) = paths.last() {
        assert(paths[p] == paths.last());
        lemma_operation_from_slot(groups, paths, include_tags, p, 0);
        let g1 = groups_after_operation(groups, item.get, "get"@, include_tags);
        lemma_operation_from_slot(g1, paths, include_tags, p, 1);
        let g2 = groups_after_operation(g1, item.post, "post"@, include_tags);
        lemma_operation_from_slot(g2, paths, include_tags, p, 2);
        let g3 = groups_after_operation(g2, item.delete, "delete"@, include_tags);
        lemma_operation_from_slot(g3, paths, include_tags, p, 3);
    }
}

/// Traced actions stay traced when more paths follow.
proof fn lemma_slots_of_longer_paths(
    groups: Seq<(Seq<char>, Seq<(Seq<char>, Seq<char>, Seq<char>)>)>,
    paths: Seq<Option<PathItem>>,
    include_tags: Seq<Seq<char>>,
)
    requires
        paths.len() > 0,
        actions_from_slots(groups, paths.drop_last(), include_tags),
    ensures
        actions_from_slots(groups, paths, include_tags),
{
    let front = paths.drop_last();
    assert forall|g: int, j: int|
        0 <= g < groups.len() && 0 <= j < groups[g].1.len() implies #[trigger] action_traced(
        paths,
        include_tags,
        groups[g].0,
        groups[g].1[j],
    ) by {
        assert(action_traced(front, include_tags, groups[g].0, groups[g].1[j]));
        let (q, r) = choose|q: int, r: int|
            action_from_slot(front, include_tags, groups[g].0, groups[g].1[j], q, r);
        assert(front[q] == paths[q]);
        assert(action_from_slot(paths, include_tags, groups[g].0, groups[g].1[j], q, r));
    }
}

/// Every action of the controllers that the paths group into carries the HTTP method of
/// the method slot of the path item it was read from: an operation read from `delete` is
/// labelled `delete`, one from `put` is labelled `put`, and likewise `get` and `post`. Its
/// identifier is that operation's identifier, snake-cased, and its controller is the
/// operation's first included tag.
pub proof fn law_actions_carry_their_slot_method(
    paths: Seq<Option<PathItem>>,
    include_tags: Seq<Seq<char>>,
    g: int,
    j: int,
)
    requires
        0 <= g < controllers_of(paths, include_tags).len(),
        0 <= j < controllers_of(paths, include_tags)[g].1.len(),
    ensures
        exists|p: int, slot: int|
            action_from_slot(
                paths,
                include_tags,
                controllers_of(paths, include_tags)[g].0,
                controllers_of(paths, include_tags)[g].1[j],
                p,
                slot,
            ),
{
    lemma_controllers_traced(paths, include_tags);
    let c = controllers_of(paths, include_tags);
    assert(action_traced(paths, include_tags, c[g].0, c[g].1[j]));
}

/// Every action of the controllers is traced to a method slot of one of the paths.
proof fn lemma_controllers_traced(paths: Seq<Option<PathItem>>, include_tags: Seq<Seq<char>>)
    ensures
        actions_from_slots(controllers_of(paths, include_tags), paths, include_tags),
    decreases paths.len(),
{
    if paths.len() > 0 {
        lemma_controllers_traced(paths.drop_last(), include_tags);
        let before = controllers_of(paths.drop_last(), include_tags);
        lemma_slots_of_longer_paths(before, paths, include_tags);
        lemma_path_from_slots(before, paths, include_tags);
    }
}

/// The groups hold `action` in the group of `tag`.
pub open spec fn holds_action(
    groups: Seq<(Seq<char>, Seq<(Seq<char>, Seq<char>, Seq<char>)>)>,
    tag: Seq<char>,
    action: (Seq<char>, Seq<char>, Seq<char>),
) -> bool {
    exists|g: int, j: int|
        0 <= g < groups.len() && 0 <= j < groups[g].1.len() && groups[g].0 == tag && #[trigger] groups[g].1[j]
            == action
}

/// Adding an operation keeps every action already held.
proof fn lemma_operation_keeps_actions(
    groups: Seq<(Seq<char>, Seq<(Seq<char>, Seq<char>, Seq<char>)>)>,
    operation: Option<PathOperation>,
    http_method: Seq<char>,
    include_tags: Seq<Seq<char>>,
    tag: Seq<char>,
    action: (Seq<char>, Seq<char>, Seq<char>),
)
    requires
        holds_action(groups, tag, action),
    ensures
        holds_action(groups_after_operation(groups, operation, http_method, include_tags), tag, action),
{
    if let Some(op) = operation {
        if let Some((t, a)) = attributes_of(op, http_method, include_tags) {
            let (g, j) = choose|g: int, j: int|
                0 <= g < groups.len() && 0 <= j < groups[g].1.len() && groups[g].0 == tag
                    && #[trigger] groups[g].1[j] == action;
            lemma_group_index_bounds(groups, t);
            let k = group_index(groups, t);
            let n = add_to_group(groups, t, a);
            if k < groups.len() && g == k {
                assert(n[g].1[j] == groups[g].1.push(a)[j]);
            }
            assert(n[g].0 == tag && n[g].1[j] == action);
        }
    }
}

/// Adding a path keeps every action already held.
proof fn lemma_path_keeps_actions(
    groups: Seq<(Seq<char>, Seq<(Seq<char>, Seq<char>, Seq<char>)>)>,
    path: Option<PathItem>,
    include_tags: Seq<Seq<char>>,
    tag: Seq<char>,
    action: (Seq<char>, Seq<char>, Seq<char>),
)
    requires
        holds_action(groups, tag, action),
    ensures
        holds_action(groups_after_path(groups, path, include_tags), tag, action),
{
    if let Some(item) = path {
        lemma_operation_keeps_actions(groups, item.get, "get"@, include_tags, tag, action);
        let g1 = groups_after_operation(groups, item.get, "get"@, include_tags);
        lemma_operation_keeps_actions(g1, item.post, "post"@, include_tags, tag, action);
        let g2 = groups_after_operation(g1, item.post, "post"@, include_tags);
        lemma_operation_keeps_actions(g2, item.delete, "delete"@, include_tags, tag, action);
        let g3 = groups_after_operation(g2, item.delete, "delete"@, include_tags);
        lemma_operation_keeps_actions(g3, item.put, "put"@, include_tags, tag, action);
    }
}

/// The operation of a slot, where it has an included tag and an identifier, is added to
/// the group of its tag.
proof fn lemma_operation_adds_action(
    groups: Seq<(Seq<char>, Seq<(Seq<char>, Seq<char>, Seq<char>)>)>,
    operation: Option<PathOperation>,
    http_method: Seq<char>,
    include_tags: Seq<Seq<char>>,
    tag: Seq<char>,
    action: (Seq<char>, Seq<char>, Seq<char>),
)
    requires
        operation is Some,
        attributes_of(operation->0, http_method, include_tags) == Some((tag, action)),
    ensures
        holds_action(groups_after_operation(groups, operation, http_method, include_tags), tag, action),
{
    lemma_group_index_bounds(groups, tag);
    let k = group_index(groups, tag);
    let n = add_to_group(groups, tag, action);
    if k < groups.len() {
        let j = groups[k].1.len() as int;
        assert(n[k].1[j] == action);
    } else {
        let g = groups.len() as int;
        assert(n[g].1[0] == action);
    }
}

/// Adding a path adds the action of each of its slots whose operation has an included tag
/// and an identifier.
proof fn lemma_path_adds_slot(
    groups: Seq<(Seq<char>, Seq<(Seq<char>, Seq<char>, Seq<char>)>)>,
    paths: Seq<Option<PathItem>>,
    include_tags: Seq<Seq<char>>,
    tag: Seq<char>,
    action: (Seq<char>, Seq<char>, Seq<char>),
    p: int,
    slot: int,
)
    requires
        action_from_slot(paths, include_tags, tag, action, p, slot),
    ensures
        holds_action(groups_after_path(groups, paths[p], include_tags), tag, action),
{
    let item = paths[p]->0;
    let op = slot_operation(item, slot);
    assert(attributes_of(op->0, slot_method(slot), include_tags) == Some((tag, action)));
    let g1 = groups_after_operation(groups, item.get, "get"@, include_tags);
    let g2 = groups_after_operation(g1, item.post, "post"@, include_tags);
    let g3 = groups_after_operation(g2, item.delete, "delete"@, include_tags);
    let g4 = groups_after_operation(g3, item.put, "put"@, include_tags);
    if slot == 0 {
        lemma_operation_adds_action(groups, item.get, "get"@, include_tags, tag, action);
        lemma_operation_keeps_actions(g1, item.post, "post"@, include_tags, tag, action);
        lemma_operation_keeps_actions(g2, item.delete, "delete"@, include_tags, tag, action);
        lemma_operation_keeps_actions(g3, item.put, "put"@, include_tags, tag, action);
    } else if slot == 1 {
        lemma_operation_adds_action(g1, item.post, "post"@, include_tags, tag, action);
        lemma_operation_keeps_actions(g2, item.delete, "delete"@, include_tags, tag, action);
        lemma_operation_keeps_actions(g3, item.put, "put"@, include_tags, tag, action);
    } else if slot == 2 {
        lemma_operation_adds_action(g2, item.delete, "delete"@, include_tags, tag, action);
        lemma_operation_keeps_actions(g3, item.put, "put"@, include_tags, tag, action);
    } else {
        lemma_operation_adds_action(g3, item.put, "put"@, include_tags, tag, action);
    }
}

/// Every operation of the paths that has an included tag and an identifier becomes an
/// action of the controller of its first included tag, labelled with the HTTP method of
/// the slot it was read from: an operation under `delete` gives a `delete` action, one
/// under `put` a `put` action, and likewise `get` and `post`.
pub proof fn law_every_operation_has_its_action(
    paths: Seq<Option<PathItem>>,
    include_tags: Seq<Seq<char>>,
    p: int,
    slot: int,
)
    requires
        0 <= p < paths.len(),
        0 <= slot < 4,
        paths[p] is Some,
        slot_operation(paths[p]->0, slot) is Some,
        slot_operation(paths[p]->0, slot)->0.operation_id is Some,
        first_included(slot_operation(paths[p]->0, slot)->0.tags@, include_tags) is Some,
    ensures
        holds_action(
            controllers_of(paths, include_tags),
            first_included(slot_operation(paths[p]->0, slot)->0.tags@, include_tags)->0,
            (
                snake_case(slot_operation(paths[p]->0, slot)->0.operation_id->0@),
                slot_method(slot),
                lowercase(summary_text(slot_operation(paths[p]->0, slot)->0.summary)),
            ),
        ),
    decreases paths.len(),
{
    let op = slot_operation(paths[p]->0, slot)->0;
    let tag = first_included(op.tags@, include_tags)->0;
    let action = (
        snake_case(op.operation_id->0@),
        slot_method(slot),
        lowercase(summary_text(op.summary)),
    );
    assert(action_from_slot(paths, include_tags, tag, action, p, slot));
    let front = paths.drop_last();
    let before = controllers_of(front, include_tags);
    if p < paths.len() - 1 {
        assert(front[p] == paths[p]);
        law_every_operation_has_its_action(front, include_tags, p, slot);
        lemma_path_keeps_actions(before, paths.last(), include_tags, tag, action);
    } else {
        assert(paths[p] == paths.last());
        lemma_path_adds_slot(before, paths, include_tags, tag, action, p, slot);
    }
}

/// Whether some action uses the HTTP method `method`.
pub open spec fn has_method(attributes: Seq<(Seq<char>, Seq<char>, Seq<char>)>, method: Seq<char>) -> bool {
    exists|i: int| 0 <= i < attributes.len() && #[trigger] attributes[i].1 == method
}

/// A controller has an action for an HTTP method exactly where one of its actions carries
/// that method: each action's method counts, and no other method does.
pub proof fn law_action_methods_decide_the_controller_actions(
    attributes: Seq<(Seq<char>, Seq<char>, Seq<char>)>,
    method: Seq<char>,
)
    ensures
        forall|i: int| 0 <= i < attributes.len() ==> has_method(attributes, #[trigger] attributes[i].1),
        !has_method(attributes, method) ==> forall|i: int|
            0 <= i < attributes.len() ==> #[trigger] attributes[i].1 != method,
{
}

/// Tests whether some action uses the HTTP method `method`.
fn any_method(attributes: &Vec<ControllerAttributes>, method: &str) -> (r: bool)
    ensures
        r == has_method(attributes.deep_view(), method@),
{
    let m = method.to_owned();
    let mut i: usize = 0;
    while i < attributes.len()
        invariant
            m@ == method@,
            i <= attributes.len(),
            forall|k: int| 0 <= k < i ==> attributes.deep_view()[k].1 != method@,
        decreases attributes.len() - i,
    {
        if attributes[i].http_method == m {
            assert(attributes.deep_view()[i as int].1 == method@);
            return true;
        }
        i = i + 1;
    }
    false
}

/// The path of a generated source file: `<directory>/<lowercased name>.rs`.
pub open spec fn source_path(directory: Seq<char>, name: Seq<char>) -> Seq<char> {
    directory + "/"@ + lowercase(name) + ".rs"@
}

/// Builds `<directory>/<lowercased name>.rs`.
fn source_path_of(directory: &str, name: &str) -> (r: String)
    ensures
        r@ == source_path(directory@, name@),
{
    directory.to_owned().concat("/").concat(to_lowercase(name).as_str()).concat(".rs")
}

/// References to each of the actions.
fn action_refs<'a>(attributes: &'a Vec<ControllerAttributes>) -> (r: Vec<&'a ControllerAttributes>)
    ensures
        r.deep_view() == attributes.deep_view(),
{
    let mut r: Vec<&'a ControllerAttributes> = Vec::new();
    let mut i: usize = 0;
    while i < attributes.len()
        invariant
            i <= attributes.len(),
            r.deep_view() == attributes.deep_view().subrange(0, i as int),
        decreases attributes.len() - i,
    {
        let ghost old_r = r.deep_view();
        r.push(&attributes[i]);
        assert(r.deep_view() =~= old_r.push(attributes.deep_view()[i as int]));
        i = i + 1;
    }
    assert(attributes.deep_view().subrange(0, i as int) =~= attributes.deep_view());
    r
}

/// What is generated for the controller of one tag.
#[derive(Debug)]
pub struct ControllerPlan<'a> {
    /// The controller's file name in the controllers directory.
    pub file_name: String,
    pub controller: Controller,
    pub delete_actions: ControllerActionDelete<'a>,
    pub put_actions: ControllerActionPut<'a>,
    pub post_actions: ControllerActionPost<'a>,
    /// The line that declares the controller's module.
    pub mod_line: String,
}

/// The name of the type a tag's controller handles: the singular of the tag,
/// capitalized.
pub open spec fn kind_of_tag(tag: Seq<char>) -> Seq<char> {
    capitalized(singular(tag))
}

/// The type a tag's controller handles is the capitalized singular of the tag: the
/// controller of `cats` handles `Cat`, and that is the schema it looks up.
pub proof fn law_controller_kind_is_capitalized_singular(tag: Seq<char>)
    ensures
        kind_of_tag(tag) == capitalized(singular(tag)),
{
}

/// Plans the controller of `tag`: `None` where its file is ignored; an error where the
/// schema of its type is missing.
pub fn generate_controller<'a>(
    directory: &str,
    ignored: &Vec<String>,
    schemas: &Vec<(String, ComponentSchema)>,
    tag: &str,
    controller_attributes: &'a Vec<ControllerAttributes>,
    resource_remote_ref: &str,
) -> (r: Result<Option<ControllerPlan<'a>>, AppError>)
    ensures
        ignored.deep_view().contains(source_path(directory@, tag@)) ==> r matches Ok(None),
        !ignored.deep_view().contains(source_path(directory@, tag@)) ==> match schema_fields(
            schemas@,
            kind_of_tag(tag@),
            resource_remote_ref@,
        ) {
            None => r matches Err(AppError::Other(m)) && m@ == "Schema not found for type: "@
                + kind_of_tag(tag@),
            Some(fields) => r matches Ok(Some(plan)) && {
                let c = plan.controller;
                let attributes = controller_attributes.deep_view();
                &&& plan.file_name@ == lowercase(tag@) + ".rs"@
                &&& c.tag@ == lowercase(tag@)
                &&& c.arg_name@ == singular(lowercase(tag@))
                &&& c.kind_struct@ == kind_of_tag(tag@)
                &&& c.kind_struct@ == capitalized(singular(tag@))
                &&& c.dto_fields.deep_view() == fields
                &&& c.resource_remote_ref@ == resource_remote_ref@
                &&& c.has_create_action == has_method(attributes, "post"@)
                &&& c.has_update_action == has_method(attributes, "put"@)
                &&& c.has_delete_action == has_method(attributes, "delete"@)
                &&& c.api_url@ == "http://localhost:8080"@
                &&& plan.delete_actions.arg_name@ == singular(lowercase(tag@))
                &&& plan.delete_actions.kind_struct@ == kind_of_tag(tag@)
                &&& plan.delete_actions.controllers.deep_view() == attributes
                &&& plan.delete_actions.resource_remote_ref@ == resource_remote_ref@
                &&& plan.put_actions.arg_name@ == singular(lowercase(tag@))
                &&& plan.put_actions.kind_struct@ == kind_of_tag(tag@)
                &&& plan.put_actions.controllers.deep_view() == attributes
                &&& plan.put_actions.resource_remote_ref@ == resource_remote_ref@
                &&& plan.post_actions.arg_name@ == singular(lowercase(tag@))
                &&& plan.post_actions.kind_struct@ == kind_of_tag(tag@)
                &&& plan.post_actions.controllers.deep_view() == attributes
                &&& plan.post_actions.resource_remote_ref@ == resource_remote_ref@
                &&& plan.mod_line@ == mod_line_of(lowercase(tag@))
            },
        },
{
    let path = source_path_of(directory, tag);
    if is_ignored(ignored, &path) {
        return Ok(None);
    }
    let has_create_action = any_method(controller_attributes, "post");
    let has_update_action = any_method(controller_attributes, "put");
    let has_delete_action = any_method(controller_attributes, "delete");
    let singular_tag = to_singular(tag);
    let kind_struct = uppercase_first_letter(singular_tag.as_str());
    let fields = get_fields_for_type(schemas, kind_struct.as_str(), resource_remote_ref)?;
    let lower_tag = to_lowercase(tag);
    let arg_name = to_singular(lower_tag.as_str());
    let controller = Controller {
        tag: lower_tag.clone(),
        arg_name: arg_name.clone(),
        kind_struct: kind_struct.clone(),
        dto_fields: fields,
        resource_remote_ref: resource_remote_ref.to_owned(),
        has_create_action,
        has_update_action,
        has_delete_action,
        api_url: "http://localhost:8080".to_owned(),
    };
    let delete_actions = ControllerActionDelete {
        arg_name: arg_name.clone(),
        kind_struct: kind_struct.clone(),
        controllers: action_refs(controller_attributes),
        resource_remote_ref: resource_remote_ref.to_owned(),
    };
    let put_actions = ControllerActionPut {
        arg_name: arg_name.clone(),
        kind_struct: kind_struct.clone(),
        controllers: action_refs(controller_attributes),
        resource_remote_ref: resource_remote_ref.to_owned(),
    };
    let post_actions = ControllerActionPost {
        arg_name,
        kind_struct,
        controllers: action_refs(controller_attributes),
        resource_remote_ref: resource_remote_ref.to_owned(),
    };
    let file_name = lower_tag.clone().concat(".rs");
    let mod_line = mod_line(lower_tag.as_str());
    Ok(
        Some(
            ControllerPlan {
                file_name,
                controller,
                delete_actions,
                put_actions,
                post_actions,
                mod_line,
            },
        ),
    )
}

/// What is generated for the type of one schema.
#[derive(Debug)]
pub struct TypePlan {
    /// The type's file name in the types directory.
    pub file_name: String,
    pub template: Type,
}

/// Plans the type of the schema `name`: `None` where its file is ignored or its fields
/// cannot be found.
pub fn generate_type(
    schemas: &Vec<(String, ComponentSchema)>,
    ignored: &Vec<String>,
    name: &str,
    operator_group: &str,
    operator_version: &str,
    operator_resource_ref: &str,
    directory: &str,
) -> (r: Option<TypePlan>)
    ensures
        ignored.deep_view().contains(source_path(directory@, name@)) ==> r is None,
        !ignored.deep_view().contains(source_path(directory@, name@)) ==> match schema_fields(
            schemas@,
            name@,
            operator_resource_ref@,
        ) {
            None => r is None,
            Some(fields) => r matches Some(plan) && {
                let t = plan.template;
                &&& plan.file_name@ == lowercase(name@) + ".rs"@
                &&& t.tag_name@ == plural(lowercase(name@))
                &&& t.struct_name@ == capitalized(name@)
                &&& t.api_version@ == operator_version@
                &&& t.group_name@ == operator_group@
                &&& t.fields.deep_view() == fields
                &&& t.reference_id@ == operator_resource_ref@
            },
        },
{
    let path = source_path_of(directory, name);
    if is_ignored(ignored, &path) {
        return None;
    }
    let fields = match get_fields_for_type(schemas, name, operator_resource_ref) {
        Ok(fields) => fields,
        Err(_) => {
            return None;
        },
    };
    let lower = to_lowercase(name);
    let template = Type {
        tag_name: to_plural(lower.as_str()),
        struct_name: uppercase_first_letter(name),
        api_version: operator_version.to_owned(),
        group_name: operator_group.to_owned(),
        fields,
        reference_id: operator_resource_ref.to_owned(),
    };
    Some(TypePlan { file_name: lower.concat(".rs"), template })
}

/// The data of the operator's `main.rs`: `None` where that file is ignored; else the
/// controllers in order and the singular of each type.
pub fn generate_main_file(
    directory: &str,
    ignored: &Vec<String>,
    api_group: &str,
    api_version: &str,
    controllers: &Vec<String>,
    types: &Vec<String>,
) -> (r: Option<Main>)
    ensures
        match r {
            None => ignored.deep_view().contains(
                joined_path(joined_path(directory@, "src"@), "main.rs"@),
            ),
            Some(m) => !ignored.deep_view().contains(
                joined_path(joined_path(directory@, "src"@), "main.rs"@),
            ) && {
            &&& m.api_group@ == api_group@
            &&& m.api_version@ == api_version@
            &&& sorted(m.controllers.deep_view())
            &&& m.controllers.deep_view().to_multiset() == controllers.deep_view().to_multiset()
            &&& m.types@.len() == types@.len()
            &&& forall|i: int| 0 <= i < types@.len() ==> #[trigger] m.types@[i]@ == singular(types@[i]@)
            },
        },
{
    let src = path_join(directory, "src");
    let path = path_join(src.as_str(), "main.rs");
    if is_ignored(ignored, &path) {
        return None;
    }
    let mut singular_types: Vec<String> = Vec::new();
    let mut i: usize = 0;
    while i < types.len()
        invariant
            i <= types@.len(),
            singular_types@.len() == i,
            forall|k: int| 0 <= k < i ==> #[trigger] singular_types@[k]@ == singular(types@[k]@),
        decreases types.len() - i,
    {
        singular_types.push(to_singular(types[i].as_str()));
        i = i + 1;
    }
    Some(
        Main {
            api_group: api_group.to_owned(),
            api_version: api_version.to_owned(),
            controllers: sort_strings(controllers),
            types: singular_types,
        },
    )
}

/// Whether the operator's `lib.rs` is generated: not where `<directory>/src/lib.rs` is
/// ignored.
pub fn generate_lib(directory: &str, ignored: &Vec<String>) -> (r: bool)
    ensures
        r == !ignored.deep_view().contains(directory@ + "/src/lib.rs"@),
{
    let path = directory.to_owned().concat("/src/lib.rs");
    !is_ignored(ignored, &path)
}

/// The role and cluster role that grant the operator access to the resources.
pub fn generate_rbac_files(resources: &Vec<String>, kubernetes_operator_group: &str) -> (r: (
    Role,
    ClusterRole,
))
    ensures
        r.0.identifiers.api_group@ == kubernetes_operator_group@,
        r.0.identifiers.resources.deep_view() == resources.deep_view(),
        r.1.identifiers.api_group@ == kubernetes_operator_group@,
        r.1.identifiers.resources.deep_view() == resources.deep_view(),
{
    (
        Role {
            identifiers: RoleTemplateIdentifiers {
                api_group: kubernetes_operator_group.to_owned(),
                resources: clone_strings(resources),
            },
        },
        ClusterRole {
            identifiers: ClusterRoleTemplateIdentifiers {
                api_group: kubernetes_operator_group.to_owned(),
                resources: clone_strings(resources),
            },
        },
    )
}


/// The keys of the entries, in order.
pub open spec fn entry_keys(entries: Seq<(Seq<char>, Seq<char>)>) -> Seq<Seq<char>> {
    Seq::new(entries.len(), |i: int| entries[i].0)
}

/// The keys strictly increase.
pub open spec fn strictly_sorted(keys: Seq<Seq<char>>) -> bool {
    forall|i: int, j: int| 0 <= i < j < keys.len() ==> str_lt(#[trigger] keys[i], #[trigger] keys[j])
}

/// The module name of each resource: its singular.
pub open spec fn resource_modules(resources: Seq<String>) -> Seq<Seq<char>> {
    Seq::new(resources.len(), |i: int| singular(resources[i]@))
}

/// The entries of the CRD generator: each module name once, in order, with its type
/// name, the class case of the module name.
pub open spec fn crdgen_entries_of(
    entries: Seq<(Seq<char>, Seq<char>)>,
    resources: Seq<String>,
) -> bool {
    &&& strictly_sorted(entry_keys(entries))
    &&& forall|i: int| 0 <= i < entries.len() ==> #[trigger] entries[i].1 == class_case(entries[i].0)
    &&& forall|k: Seq<char>| entry_keys(entries).contains(k) <==> resource_modules(resources).contains(k)
}

/// Adds a module to the sorted entries, where it is not there yet.
fn insert_module(entries: &mut Vec<(String, String)>, module: String)
    requires
        strictly_sorted(entry_keys(old(entries).deep_view())),
        forall|i: int|
            0 <= i < old(entries).deep_view().len() ==> #[trigger] old(entries).deep_view()[i].1
                == class_case(old(entries).deep_view()[i].0),
    ensures
        strictly_sorted(entry_keys(final(entries).deep_view())),
        forall|i: int|
            0 <= i < final(entries).deep_view().len() ==> #[trigger] final(entries).deep_view()[i].1
                == class_case(final(entries).deep_view()[i].0),
        forall|k: Seq<char>|
            entry_keys(final(entries).deep_view()).contains(k) <==> (entry_keys(
                old(entries).deep_view(),
            ).contains(k) || k == module@),
{
    let ghost old_v = entries.deep_view();
    let ghost old_keys = entry_keys(old_v);
    let mut k: usize = 0;
    while k < entries.len() && less_than(entries[k].0.as_str(), module.as_str())
        invariant
            entries.deep_view() == old_v,
            old_keys == entry_keys(old_v),
            k <= entries.len(),
            forall|j: int| 0 <= j < k ==> str_lt(#[trigger] old_keys[j], module@),
        decreases entries.len() - k,
    {
        assert(old_keys[k as int] == old_v[k as int].0);
        k = k + 1;
    }
    if k < entries.len() && entries[k].0 == module {
        assert forall|x: Seq<char>| entry_keys(entries.deep_view()).contains(x) <==> (
        old_keys.contains(x) || x == module@) by {
            if x == module@ {
                assert(old_keys[k as int] == x);
            }
        }
        return;
    }
    let value = to_class_case(module.as_str());
    let ghost m = module@;
    let ghost entry = (module@, value@);
    entries.insert(k, (module, value));
    let ghost new_v = entries.deep_view();
    assert(new_v =~= old_v.insert(k as int, entry));
    let ghost new_keys = entry_keys(new_v);
    assert(new_keys =~= old_keys.insert(k as int, m));
    proof {
        if k < old_v.len() {
            assert(!str_lt(old_keys[k as int], m));
            assert(old_keys[k as int] != m);
            lemma_str_lt_total(old_keys[k as int], m);
        }
        assert forall|a: int, b: int| 0 <= a < b < new_keys.len() implies str_lt(
            #[trigger] new_keys[a],
            #[trigger] new_keys[b],
        ) by {
            if b < k {
                assert(new_keys[a] == old_keys[a] && new_keys[b] == old_keys[b]);
            } else if b == k {
                assert(new_keys[a] == old_keys[a]);
            } else if a < k {
                assert(new_keys[a] == old_keys[a] && new_keys[b] == old_keys[b - 1]);
                lemma_str_lt_transitive(old_keys[a], m, old_keys[k as int]);
                if b - 1 > k {
                    lemma_str_lt_transitive(old_keys[a], old_keys[k as int], old_keys[b - 1]);
                }
            } else if a == k {
                assert(new_keys[b] == old_keys[b - 1]);
                if b - 1 > k {
                    lemma_str_lt_transitive(m, old_keys[k as int], old_keys[b - 1]);
                }
            } else {
                assert(new_keys[a] == old_keys[a - 1] && new_keys[b] == old_keys[b - 1]);
            }
        }
        assert forall|i: int| 0 <= i < new_v.len() implies #[trigger] new_v[i].1 == class_case(
            new_v[i].0,
        ) by {
            if i < k {
                assert(new_v[i] == old_v[i]);
            } else if i > k {
                assert(new_v[i] == old_v[i - 1]);
            }
        }
        assert forall|x: Seq<char>| new_keys.contains(x) <==> (old_keys.contains(x) || x == m) by {
            if new_keys.contains(x) {
                let j = choose|j: int| 0 <= j < new_keys.len() && new_keys[j] == x;
                if j < k {
                    assert(old_keys[j] == x);
                } else if j > k {
                    assert(old_keys[j - 1] == x);
                }
            }
            if old_keys.contains(x) {
                let j = choose|j: int| 0 <= j < old_keys.len() && old_keys[j] == x;
                if j < k {
                    assert(new_keys[j] == x);
                } else {
                    assert(new_keys[j + 1] == x);
                }
            }
            if x == m {
                assert(new_keys[k as int] == x);
            }
        }
    }
}

/// The data of the CRD generator's `main.rs`: each resource's module name, its
/// singular, once and in order, with its type name.
pub fn generate_crdgen_file(resources: &Vec<String>) -> (r: CrdgenMain)
    ensures
        crdgen_entries_of(r.resources.deep_view(), resources@),
{
    let mut entries: Vec<(String, String)> = Vec::new();
    let mut i: usize = 0;
    assert(entry_keys(entries.deep_view()) =~= Seq::<Seq<char>>::empty());
    while i < resources.len()
        invariant
            i <= resources@.len(),
            strictly_sorted(entry_keys(entries.deep_view())),
            forall|j: int|
                0 <= j < entries.deep_view().len() ==> #[trigger] entries.deep_view()[j].1
                    == class_case(entries.deep_view()[j].0),
            forall|k: Seq<char>|
                entry_keys(entries.deep_view()).contains(k) <==> resource_modules(
                    resources@.subrange(0, i as int),
                ).contains(k),
        decreases resources.len() - i,
    {
        let module = to_singular(resources[i].as_str());
        let ghost before = resource_modules(resources@.subrange(0, i as int));
        let ghost after = resource_modules(resources@.subrange(0, i + 1));
        assert(after =~= before.push(module@));
        insert_module(&mut entries, module);
        proof {
            assert forall|k: Seq<char>| after.contains(k) <==> (before.contains(k) || k
                == module@) by {
                if after.contains(k) {
                    let j = choose|j: int| 0 <= j < after.len() && after[j] == k;
                    if j < before.len() {
                        assert(before[j] == k);
                    }
                }
                if before.contains(k) {
                    let j = choose|j: int| 0 <= j < before.len() && before[j] == k;
                    assert(after[j] == k);
                }
                if k == module@ {
                    assert(after[before.len() as int] == k);
                }
            }
        }
        i = i + 1;
    }
    assert(resources@.subrange(0, i as int) =~= resources@);
    CrdgenMain { resources: entries }
}


/// A field of an example object: its key, its text where the value is a string, and
/// the value.
#[derive(Debug)]
pub struct ExampleEntry<V> {
    pub key: String,
    pub text: Option<String>,
    pub value: V,
}

/// The value of an example of the document's components.
#[derive(Debug)]
pub enum ExampleValue<V> {
    /// An object, its fields in order.
    Object(Vec<ExampleEntry<V>>),
    /// An array; each element is `Some` where it is an object.
    Array(Vec<Option<Vec<ExampleEntry<V>>>>),
    /// Any other value.
    Other,
    /// A reference to an example kept elsewhere, of which no resource is made.
    Reference,
}

/// The text of the first entry whose key is `key`, where that entry's value is a string.
pub open spec fn entry_text<V>(entries: Seq<ExampleEntry<V>>, key: Seq<char>) -> Option<Seq<char>>
    decreases entries.len(),
{
    if entries.len() == 0 {
        None
    } else if entries[0].key@ == key {
        match entries[0].text {
            Some(t) => Some(t@),
            None => None,
        }
    } else {
        entry_text(entries.drop_first(), key)
    }
}

/// The metadata name of an example object: its `field` lowercased where it is a
/// string, else `field` itself lowercased.
pub open spec fn metadata_name_of<V>(field: Seq<char>, entries: Seq<ExampleEntry<V>>) -> Seq<char> {
    match entry_text(entries, field) {
        Some(t) => lowercase(t),
        None => lowercase(field),
    }
}

/// Reads the metadata name of an example object.
pub fn get_metadata_name<V>(
    kubernetes_operator_metadata_spec_field_name: &str,
    map: &Vec<ExampleEntry<V>>,
) -> (r: String)
    ensures
        r@ == metadata_name_of(kubernetes_operator_metadata_spec_field_name@, map@),
{
    let field = kubernetes_operator_metadata_spec_field_name.to_owned();
    let mut i: usize = 0;
    assert(map@.subrange(0, map@.len() as int) =~= map@);
    while i < map.len()
        invariant
            field@ == kubernetes_operator_metadata_spec_field_name@,
            i <= map@.len(),
            entry_text(map@, field@) == entry_text(map@.subrange(i as int, map@.len() as int), field@),
        decreases map.len() - i,
    {
        let ghost rest = map@.subrange(i as int, map@.len() as int);
        assert(rest[0] == map@[i as int]);
        assert(rest.drop_first() =~= map@.subrange(i + 1, map@.len() as int));
        if map[i].key == field {
            return match &map[i].text {
                Some(t) => to_lowercase(t.as_str()),
                None => to_lowercase(kubernetes_operator_metadata_spec_field_name),
            };
        }
        i = i + 1;
    }
    to_lowercase(kubernetes_operator_metadata_spec_field_name)
}

/// An example field is kept in a manifest: it is not the remote resource reference and
/// its key does not begin with `x-`.
pub open spec fn kept_in_manifest(key: Seq<char>, resource_ref: Seq<char>) -> bool {
    key != resource_ref && !has_prefix(key, "x-"@)
}

/// The fields of an example object that go into its manifest, in order.
pub open spec fn manifest_entries<V>(entries: Seq<ExampleEntry<V>>, resource_ref: Seq<char>) -> Seq<
    ExampleEntry<V>,
>
    decreases entries.len(),
{
    if entries.len() == 0 {
        Seq::empty()
    } else {
        let rest = manifest_entries(entries.drop_last(), resource_ref);
        if kept_in_manifest(entries.last().key@, resource_ref) {
            rest.push(entries.last())
        } else {
            rest
        }
    }
}

/// Drops the remote resource reference and the `x-` fields of an example object.
pub fn filter_manifest_entries<V>(map: Vec<ExampleEntry<V>>, operator_resource_ref: &str) -> (r: Vec<
    ExampleEntry<V>,
>)
    ensures
        r@ == manifest_entries(map@, operator_resource_ref@),
{
    let rref = operator_resource_ref.to_owned();
    let ghost input = map@;
    let n = map.len();
    let mut rest = map;
    let mut rev: Vec<ExampleEntry<V>> = Vec::new();
    while rest.len() > 0
        invariant
            n == input.len(),
            rest@.len() <= n,
            rest@ == input.subrange(0, rest@.len() as int),
            rev@ == Seq::new((n - rest@.len()) as nat, |k: int| input[n - 1 - k]),
        decreases rest.len(),
    {
        let ghost before = rev@;
        let e = rest.pop().unwrap();
        rev.push(e);
        assert(rev@ =~= Seq::new((n - rest@.len()) as nat, |k: int| input[n - 1 - k]));
    }
    let mut out: Vec<ExampleEntry<V>> = Vec::new();
    assert(input.subrange(0, 0) =~= Seq::<ExampleEntry<V>>::empty());
    while rev.len() > 0
        invariant
            n == input.len(),
            rev@.len() <= n,
            rref@ == operator_resource_ref@,
            rev@ == Seq::new(rev@.len(), |k: int| input[n - 1 - k]),
            out@ == manifest_entries(input.subrange(0, n - rev@.len()), operator_resource_ref@),
        decreases rev.len(),
    {
        let ghost m = n - rev@.len();
        assert(input.subrange(0, m + 1).drop_last() =~= input.subrange(0, m));
        let e = rev.pop().unwrap();
        assert(e == input[m]);
        assert(rev@ =~= Seq::new(rev@.len(), |k: int| input[n - 1 - k]));
        let keep = !(e.key == rref) && !starts_with(e.key.as_str(), "x-");
        if keep {
            out.push(e);
        }
    }
    assert(input.subrange(0, n as int) =~= input);
    out
}


/// Whether a key begins with `x-`.
pub open spec fn begins_with_x_dash(key: Seq<char>) -> bool {
    key.len() >= 2 && key[0] == 'x' && key[1] == '-'
}

/// The fields that go into an example's manifest are exactly the fields whose key is
/// neither the resource reference nor begins with `x-`, in their order: none of the
/// result's keys is the reference or begins with `x-`, and every other field is kept.
pub proof fn law_manifest_drops_reference_and_x_fields<V>(
    entries: Seq<ExampleEntry<V>>,
    resource_ref: Seq<char>,
)
    ensures
        manifest_entries(entries, resource_ref) == entries.filter(
            |e: ExampleEntry<V>| e.key@ != resource_ref && !begins_with_x_dash(e.key@),
        ),
        forall|i: int|
            0 <= i < manifest_entries(entries, resource_ref).len() ==> {
                let k = (#[trigger] manifest_entries(entries, resource_ref)[i]).key@;
                k != resource_ref && !begins_with_x_dash(k)
            },
    decreases entries.len(),
{
    let pred = |e: ExampleEntry<V>| e.key@ != resource_ref && !begins_with_x_dash(e.key@);
    reveal(Seq::filter);
    if entries.len() > 0 {
        law_manifest_drops_reference_and_x_fields(entries.drop_last(), resource_ref);
        let k = entries.last().key@;
        reveal_strlit("x-");
        assert(has_prefix(k, "x-"@) == begins_with_x_dash(k)) by {
            if k.len() >= 2 {
                assert(k.subrange(0, 2)[0] == k[0]);
                assert(k.subrange(0, 2)[1] == k[1]);
                if k[0] == 'x' && k[1] == '-' {
                    assert(k.subrange(0, 2) =~= "x-"@);
                }
            }
        }
    }
    entries.filter_lemma(pred);
}

/// A copy of the sequence in reverse order.
fn reversed<T>(v: Vec<T>) -> (r: Vec<T>)
    ensures
        r@ == v@.reverse(),
{
    let ghost input = v@;
    let n = v.len();
    let mut rest = v;
    let mut rev: Vec<T> = Vec::new();
    while rest.len() > 0
        invariant
            n == input.len(),
            rest@.len() <= n,
            rest@ == input.subrange(0, rest@.len() as int),
            rev@ == Seq::new((n - rest@.len()) as nat, |k: int| input[n - 1 - k]),
        decreases rest.len(),
    {
        let e = rest.pop().unwrap();
        rev.push(e);
        assert(rev@ =~= Seq::new((n - rest@.len()) as nat, |k: int| input[n - 1 - k]));
    }
    assert(rev@ =~= input.reverse());
    rev
}

/// Each line indented by two spaces.
pub open spec fn indented(ls: Seq<Seq<char>>) -> Seq<Seq<char>> {
    Seq::new(ls.len(), |i: int| "  "@ + ls[i])
}

/// A YAML document nested under a key: each of its lines indented by two spaces, the
/// lines joined by line feeds.
pub open spec fn indented_yaml(yaml: Seq<char>) -> Seq<char> {
    join(indented(lines_of(yaml)), "\n"@)
}

/// Indents each line of a YAML document by two spaces.
pub fn indent_yaml(yaml: &str) -> (r: String)
    ensures
        r@ == indented_yaml(yaml@),
{
    let ls = lines(yaml);
    let mut out: Vec<String> = Vec::new();
    let mut i: usize = 0;
    while i < ls.len()
        invariant
            i <= ls.len(),
            ls.deep_view() == lines_of(yaml@),
            out.deep_view() == indented(ls.deep_view().subrange(0, i as int)),
        decreases ls.len() - i,
    {
        let ghost old_out = out.deep_view();
        let l = "  ".to_owned().concat(ls[i].as_str());
        assert(l@ == "  "@ + ls.deep_view()[i as int]);
        out.push(l);
        assert(out.deep_view() =~= old_out.push(l@));
        assert(out.deep_view() =~= indented(ls.deep_view().subrange(0, i + 1)));
        i = i + 1;
    }
    assert(ls.deep_view().subrange(0, i as int) =~= ls.deep_view());
    crate::text::join_with(&out, "\n")
}

/// The resource of an example manifest, from the example's name, its metadata name and
/// its fields rendered as YAML.
pub fn generate_resource_from_map(
    kind: &str,
    name: &str,
    spec_yaml: &str,
    operator_group: &str,
    operator_version: &str,
) -> (r: Resource)
    ensures
        r.api_group@ == operator_group@,
        r.api_version@ == operator_version@,
        r.kind@ == singular(capitalized(kind@)),
        r.metadata.name@ == "example-"@ + lowercase(name@),
        r.spec@ == indented_yaml(spec_yaml@),
{
    let capital = uppercase_first_letter(kind);
    Resource {
        api_group: operator_group.to_owned(),
        api_version: operator_version.to_owned(),
        kind: to_singular(capital.as_str()),
        metadata: Metadata { name: "example-".to_owned().concat(to_lowercase(name).as_str()) },
        spec: indent_yaml(spec_yaml),
    }
}

/// One resource of an example, before its fields are rendered: its metadata name and the
/// fields that go into its manifest.
#[derive(Debug)]
pub struct ResourceDraft<V> {
    pub metadata_name: String,
    pub entries: Vec<ExampleEntry<V>>,
}

/// The draft of an example object.
pub open spec fn draft_of<V>(
    field_name: Seq<char>,
    map: Seq<ExampleEntry<V>>,
    resource_ref: Seq<char>,
) -> (Seq<char>, Seq<ExampleEntry<V>>) {
    (metadata_name_of(field_name, map), manifest_entries(map, resource_ref))
}

/// The drafts of the objects among an array's elements, in order.
pub open spec fn drafts_of_array<V>(
    field_name: Seq<char>,
    items: Seq<Option<Vec<ExampleEntry<V>>>>,
    resource_ref: Seq<char>,
) -> Seq<(Seq<char>, Seq<ExampleEntry<V>>)>
    decreases items.len(),
{
    if items.len() == 0 {
        Seq::empty()
    } else {
        let rest = drafts_of_array(field_name, items.drop_last(), resource_ref);
        match items.last() {
            Some(map) => rest.push(draft_of(field_name, map@, resource_ref)),
            None => rest,
        }
    }
}

/// The drafts of an example: one for an object, one per object element of an array,
/// none for another value or a reference.
pub open spec fn drafts_of<V>(
    field_name: Seq<char>,
    example: ExampleValue<V>,
    resource_ref: Seq<char>,
) -> Seq<(Seq<char>, Seq<ExampleEntry<V>>)> {
    match example {
        ExampleValue::Object(map) => seq![draft_of(field_name, map@, resource_ref)],
        ExampleValue::Array(items) => drafts_of_array(field_name, items@, resource_ref),
        ExampleValue::Other => Seq::empty(),
        ExampleValue::Reference => Seq::empty(),
    }
}

/// The view of a list of drafts.
pub open spec fn drafts_view<V>(drafts: Seq<ResourceDraft<V>>) -> Seq<(Seq<char>, Seq<ExampleEntry<V>>)> {
    Seq::new(drafts.len(), |i: int| (drafts[i].metadata_name@, drafts[i].entries@))
}

/// The draft of one example object.
fn draft_from_map<V>(field_name: &str, map: Vec<ExampleEntry<V>>, resource_ref: &str) -> (r: ResourceDraft<V>)
    ensures
        (r.metadata_name@, r.entries@) == draft_of(field_name@, map@, resource_ref@),
{
    let metadata_name = get_metadata_name(field_name, &map);
    let entries = filter_manifest_entries(map, resource_ref);
    ResourceDraft { metadata_name, entries }
}

/// The resources of an example, before their fields are rendered.
pub fn generate_manifest_from_example<V>(
    kubernetes_operator_metadata_spec_field_name: &str,
    example: ExampleValue<V>,
    operator_resource_ref: &str,
) -> (r: Vec<ResourceDraft<V>>)
    ensures
        drafts_view(r@) == drafts_of(
            kubernetes_operator_metadata_spec_field_name@,
            example,
            operator_resource_ref@,
        ),
{
    let ghost ex = example;
    let mut out: Vec<ResourceDraft<V>> = Vec::new();
    match example {
        ExampleValue::Object(map) => {
            let d = draft_from_map(kubernetes_operator_metadata_spec_field_name, map, operator_resource_ref);
            out.push(d);
            assert(drafts_view(out@) =~= drafts_of(
                kubernetes_operator_metadata_spec_field_name@,
                ex,
                operator_resource_ref@,
            ));
        },
        ExampleValue::Array(items) => {
            let ghost all = items@;
            let n = items.len();
            let mut rev = reversed(items);
            assert(Seq::<Option<Vec<ExampleEntry<V>>>>::empty() =~= all.subrange(0, 0));
            while rev.len() > 0
                invariant
                    n == all.len(),
                    rev@.len() <= n,
                    rev@ == all.subrange(n - rev@.len(), n as int).reverse(),
                    drafts_view(out@) == drafts_of_array(
                        kubernetes_operator_metadata_spec_field_name@,
                        all.subrange(0, n - rev@.len()),
                        operator_resource_ref@,
                    ),
                decreases rev.len(),
            {
                let ghost m = n - rev@.len();
                assert(all.subrange(0, m + 1).drop_last() =~= all.subrange(0, m));
                let item = rev.pop().unwrap();
                assert(item == all[m]);
                assert(rev@ =~= all.subrange(m + 1, n as int).reverse());
                match item {
                    Some(map) => {
                        let d = draft_from_map(
                            kubernetes_operator_metadata_spec_field_name,
                            map,
                            operator_resource_ref,
                        );
                        let ghost old_out = out@;
                        out.push(d);
                        assert(drafts_view(out@) =~= drafts_view(old_out).push(
                            (d.metadata_name@, d.entries@),
                        ));
                    },
                    None => {},
                }
            }
            assert(all.subrange(0, n as int) =~= all);
        },
        ExampleValue::Other => {
            assert(drafts_view(out@) =~= Seq::<(Seq<char>, Seq<ExampleEntry<V>>)>::empty());
        },
        ExampleValue::Reference => {
            assert(drafts_view(out@) =~= Seq::<(Seq<char>, Seq<ExampleEntry<V>>)>::empty());
        },
    }
    out
}

/// The file of an example's manifest in the examples directory,
/// `<lowercased name>.yaml`, and its data; none where the example has no resource.
pub fn write_example_manifest(name: &str, resources: Vec<Resource>) -> (r: Option<(String, Example)>)
    ensures
        r is None <==> resources@.len() == 0,
        r matches Some(p) ==> p.0@ == lowercase(name@) + ".yaml"@ && p.1.resources@ == resources@,
{
    if resources.len() == 0 {
        None
    } else {
        Some((to_lowercase(name).concat(".yaml"), Example { resources }))
    }
}

/// The operator's deployment and secret manifests, both naming the operator's secret.
pub fn generate_operator_deployment_files(secret_name: &str) -> (r: (Deployment, Secret))
    ensures
        r.0.secret_name@ == secret_name@,
        r.1.secret_name@ == secret_name@,
{
    (Deployment { secret_name: secret_name.to_owned() }, Secret { secret_name: secret_name.to_owned() })
}

/// A step of the generation.
#[derive(PartialEq, Eq, Structural, Debug, Clone, Copy)]
pub enum GenerationStep {
    /// The operator's `lib.rs`.
    Lib,
    /// The types of the schemas.
    Types,
    /// The controllers of the included tags, and the operator's `main.rs`.
    Controllers,
    /// The RBAC manifests.
    Rbac,
    /// The operator's deployment and secret manifests.
    OperatorDeployment,
    /// The CRD generator's `main.rs`.
    Crdgen,
    /// The example manifests.
    Examples,
}

/// The steps of a generation: everything where `all` is set or no part is selected,
/// else the selected parts in the order lib, manifests, controllers, types.
pub open spec fn steps_of(all: bool, lib: bool, manifests: bool, controllers: bool, types: bool) -> Seq<
    GenerationStep,
> {
    if all || (!lib && !manifests && !controllers && !types) {
        seq![
            GenerationStep::Lib,
            GenerationStep::Types,
            GenerationStep::Controllers,
            GenerationStep::Rbac,
            GenerationStep::OperatorDeployment,
            GenerationStep::Crdgen,
            GenerationStep::Examples,
        ]
    } else {
        (if lib {
            seq![GenerationStep::Lib]
        } else {
            Seq::empty()
        }) + (if manifests {
            seq![GenerationStep::Rbac, GenerationStep::Crdgen, GenerationStep::Examples]
        } else {
            Seq::empty()
        }) + (if controllers {
            seq![GenerationStep::Controllers]
        } else {
            Seq::empty()
        }) + (if types {
            seq![GenerationStep::Types]
        } else {
            Seq::empty()
        })
    }
}

/// Decides which parts a generation produces, and in which order.
pub fn generation_steps(all: bool, lib: bool, manifests: bool, controllers: bool, types: bool) -> (r:
    Vec<GenerationStep>)
    ensures
        r@ == steps_of(all, lib, manifests, controllers, types),
{
    let mut steps: Vec<GenerationStep> = Vec::new();
    if all || (!lib && !manifests && !controllers && !types) {
        steps.push(GenerationStep::Lib);
        steps.push(GenerationStep::Types);
        steps.push(GenerationStep::Controllers);
        steps.push(GenerationStep::Rbac);
        steps.push(GenerationStep::OperatorDeployment);
        steps.push(GenerationStep::Crdgen);
        steps.push(GenerationStep::Examples);
        assert(steps@ =~= steps_of(all, lib, manifests, controllers, types));
        return steps;
    }
    if lib {
        steps.push(GenerationStep::Lib);
    }
    if manifests {
        steps.push(GenerationStep::Rbac);
        steps.push(GenerationStep::Crdgen);
        steps.push(GenerationStep::Examples);
    }
    if controllers {
        steps.push(GenerationStep::Controllers);
    }
    if types {
        steps.push(GenerationStep::Types);
    }
    assert(steps@ =~= steps_of(all, lib, manifests, controllers, types));
    steps
}

/// The directories of a project that a generation writes to.
#[derive(Debug)]
pub struct ProjectDirectories {
    pub operator: String,
    pub crdgen: String,
    pub types: String,
    pub controllers: String,
    pub rbac: String,
    pub operator_manifests: String,
    pub examples: String,
}

/// The directories of the project at `base_path`.
pub fn project_directories(base_path: &str) -> (r: ProjectDirectories)
    ensures
        r.operator@ == base_path@ + "/operator"@,
        r.crdgen@ == base_path@ + "/crdgen"@,
        r.types@ == base_path@ + "/operator/src/types"@,
        r.controllers@ == base_path@ + "/operator/src/controllers"@,
        r.rbac@ == base_path@ + "/manifests/rbac"@,
        r.operator_manifests@ == base_path@ + "/manifests/operator"@,
        r.examples@ == base_path@ + "/manifests/examples"@,
{
    ProjectDirectories {
        operator: base_path.to_owned().concat("/operator"),
        crdgen: base_path.to_owned().concat("/crdgen"),
        types: base_path.to_owned().concat("/operator/src/types"),
        controllers: base_path.to_owned().concat("/operator/src/controllers"),
        rbac: base_path.to_owned().concat("/manifests/rbac"),
        operator_manifests: base_path.to_owned().concat("/manifests/operator"),
        examples: base_path.to_owned().concat("/manifests/examples"),
    }
}

/// The resource name of a schema: its lowercased name, pluralized.
pub open spec fn resource_name_of(name: Seq<char>) -> Seq<char> {
    plural(lowercase(name))
}

/// The resource names of all schemas of the document's components, references
/// included, in order.
pub fn schema_resource_names(schemas: &Vec<(String, ComponentSchema)>) -> (r: Vec<String>)
    ensures
        r@.len() == schemas@.len(),
        forall|i: int| 0 <= i < schemas@.len() ==> #[trigger] r@[i]@ == resource_name_of(schemas@[i].0@),
{
    let mut names: Vec<String> = Vec::new();
    let mut i: usize = 0;
    while i < schemas.len()
        invariant
            i <= schemas@.len(),
            names@.len() == i,
            forall|k: int| 0 <= k < i ==> #[trigger] names@[k]@ == resource_name_of(schemas@[k].0@),
        decreases schemas.len() - i,
    {
        let lower = to_lowercase(schemas[i].0.as_str());
        names.push(to_plural(lower.as_str()));
        i = i + 1;
    }
    names
}

/// The line that keeps a tag's generated controller from being overwritten by the API
/// client generator: `operator/src/controllers/<lowercased tag>.rs`.
pub fn controller_ignore_line(tag: &str) -> (r: String)
    ensures
        r@ == "operator/src/controllers/"@ + lowercase(tag@) + ".rs"@,
{
    "operator/src/controllers/".to_owned().concat(to_lowercase(tag).as_str()).concat(".rs")
}


/// The module file of the types directory and the line that declares a type's module.
pub fn add_type_to_modfile(type_ident: &str, directory: &str) -> (r: (String, String))
    ensures
        r.0@ == joined_path(directory@, "mod.rs"@),
        r.1@ == mod_line_of(type_ident@),
{
    (path_join(directory, "mod.rs"), mod_line(type_ident))
}

/// The module file of the controllers directory and the line that declares a
/// controller's module.
pub fn add_controller_to_modfile(directory: &str, controller_name: &str) -> (r: (String, String))
    ensures
        r.0@ == directory@ + "/mod.rs"@,
        r.1@ == mod_line_of(controller_name@),
{
    (directory.to_owned().concat("/mod.rs"), mod_line(controller_name))
}

/// What is generated for one schema's type: the plan of its file, where there is one,
/// and the line that declares its module.
#[derive(Debug)]
pub struct TypeFile {
    pub plan: Option<TypePlan>,
    /// The line that declares the type's module; none for a reference, which declares
    /// no module.
    pub mod_line: Option<String>,
}

/// `f` is what is generated for the schema `name`: no plan for a reference, an ignored
/// file or a schema without fields; else the type with the example group and version
/// that generated types carry.
pub open spec fn type_file_of(
    f: TypeFile,
    name: Seq<char>,
    is_reference: bool,
    schemas: Seq<(String, ComponentSchema)>,
    ignored: Seq<Seq<char>>,
    directory: Seq<char>,
    resource_ref: Seq<char>,
) -> bool {
    &&& match f.mod_line {
        None => is_reference,
        Some(l) => !is_reference && l@ == mod_line_of(name),
    }
    &&& match f.plan {
        None => is_reference || ignored.contains(source_path(directory, name)) || schema_fields(
            schemas,
            name,
            resource_ref,
        ) is None,
        Some(p) => !is_reference && !ignored.contains(source_path(directory, name)) && match schema_fields(
            schemas,
            name,
            resource_ref,
        ) {
            None => false,
            Some(fields) => {
                &&& p.template.fields.deep_view() == fields
                &&& p.file_name@ == lowercase(name) + ".rs"@
                &&& p.template.tag_name@ == plural(lowercase(name))
                &&& p.template.struct_name@ == capitalized(name)
                &&& p.template.api_version@ == "v1"@
                &&& p.template.group_name@ == "example.com"@
                &&& p.template.reference_id@ == resource_ref
            },
        },
    }
}

/// Plans the types of the schemas, in order.
pub fn generate_types(
    directory: &str,
    ignored: &Vec<String>,
    schemas: &Vec<(String, ComponentSchema)>,
    operator_resource_ref: &str,
) -> (r: Vec<TypeFile>)
    ensures
        r@.len() == schemas@.len(),
        forall|i: int|
            0 <= i < schemas@.len() ==> type_file_of(
                #[trigger] r@[i],
                schemas@[i].0@,
                schemas@[i].1 is Reference,
                schemas@,
                ignored.deep_view(),
                directory@,
                operator_resource_ref@,
            ),
{
    let mut files: Vec<TypeFile> = Vec::new();
    let mut i: usize = 0;
    while i < schemas.len()
        invariant
            i <= schemas@.len(),
            files@.len() == i,
            forall|k: int|
                0 <= k < i ==> type_file_of(
                    #[trigger] files@[k],
                    schemas@[k].0@,
                    schemas@[k].1 is Reference,
                    schemas@,
                    ignored.deep_view(),
                    directory@,
                    operator_resource_ref@,
                ),
        decreases schemas.len() - i,
    {
        let name = schemas[i].0.as_str();
        let (plan, line) = match &schemas[i].1 {
            ComponentSchema::Reference => (None, None),
            _ => (generate_type(
                schemas,
                ignored,
                name,
                "example.com",
                "v1",
                operator_resource_ref,
                directory,
            ), Some(mod_line(name))),
        };
        proof {
            if schemas@[i as int].1 is Reference {
                assert(plan is None);
            }
        }
        files.push(TypeFile { plan, mod_line: line });
        i = i + 1;
    }
    files
}

} // verus!
