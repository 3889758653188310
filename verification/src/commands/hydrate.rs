//! Hydration of an OpenAPI document with the operator's `x-kubernetes-operator-*`
//! extensions.

use vstd::prelude::*;

use crate::config::{clone_strings, Config};
use crate::errors::AppError;
use crate::openapi::{
    all_strings, api_group_key, api_version_key, extension_string, extension_strings,
    field_ref_key, include_tags_key, info_is_complete, lookup, resource_ref_key, string_items,
    ExtensionValue,
};
use crate::text::has_prefix;

verus! {

/// The shape of a parsed specification file, as far as hydration checks it.
#[derive(Debug)]
pub enum SpecShape {
    /// The file holds no document.
    Empty,
    /// A mapping, and whether it has the `openapi` and `info` keys.
    Mapping { has_openapi: bool, has_info: bool },
    /// Any other document.
    Other,
}

/// Checks that a specification can be hydrated.
pub fn validate_spec_shape(shape: &SpecShape) -> (r: Result<(), AppError>)
    ensures
        match *shape {
            SpecShape::Empty => r matches Err(AppError::ConfigError(m)) && m@
                == "OpenAPI spec file is empty"@,
            SpecShape::Mapping { has_openapi, has_info } => if !has_openapi {
                r matches Err(AppError::ConfigError(m)) && m@
                    == "OpenAPI spec is missing required 'openapi' field"@
            } else if !has_info {
                r matches Err(AppError::ConfigError(m)) && m@
                    == "OpenAPI spec is missing required 'info' field"@
            } else {
                r is Ok
            },
            SpecShape::Other => r is Ok,
        },
{
    match shape {
        SpecShape::Empty => Err(AppError::ConfigError("OpenAPI spec file is empty".to_owned())),
        SpecShape::Mapping { has_openapi, has_info } => {
            if !*has_openapi {
                Err(
                    AppError::ConfigError(
                        "OpenAPI spec is missing required 'openapi' field".to_owned(),
                    ),
                )
            } else if !*has_info {
                Err(
                    AppError::ConfigError("OpenAPI spec is missing required 'info' field".to_owned()),
                )
            } else {
                Ok(())
            }
        },
        SpecShape::Other => Ok(()),
    }
}

/// A key of a YAML mapping: a string, or any other value.
#[derive(Debug)]
pub enum YamlKey<K> {
    Text(String),
    Other(K),
}

/// The view of a key.
pub enum YamlKeyView<K> {
    Text(Seq<char>),
    Other(K),
}

impl<K> DeepView for YamlKey<K> {
    type V = YamlKeyView<K>;

    open spec fn deep_view(&self) -> YamlKeyView<K> {
        match self {
            YamlKey::Text(s) => YamlKeyView::Text(s@),
            YamlKey::Other(k) => YamlKeyView::Other(*k),
        }
    }
}

/// A value of the `info` mapping: one that was there, or one that hydration sets.
#[derive(Debug)]
pub enum InfoValue<V> {
    Existing(V),
    Text(String),
    List(Vec<String>),
}

/// The view of an `info` value.
pub enum InfoValueView<V> {
    Existing(V),
    Text(Seq<char>),
    List(Seq<Seq<char>>),
}

impl<V> DeepView for InfoValue<V> {
    type V = InfoValueView<V>;

    open spec fn deep_view(&self) -> InfoValueView<V> {
        match self {
            InfoValue::Existing(v) => InfoValueView::Existing(*v),
            InfoValue::Text(s) => InfoValueView::Text(s@),
            InfoValue::List(l) => InfoValueView::List(l.deep_view()),
        }
    }
}

/// The position of the first entry whose key is the string `key`, or the number of
/// entries where there is none.
pub open spec fn key_index<K, W>(entries: Seq<(YamlKeyView<K>, W)>, key: Seq<char>) -> int
    decreases entries.len(),
{
    if entries.len() == 0 {
        0
    } else if entries[0].0 == YamlKeyView::<K>::Text(key) {
        0
    } else {
        1 + key_index(entries.drop_first(), key)
    }
}

pub proof fn lemma_key_index<K, W>(entries: Seq<(YamlKeyView<K>, W)>, key: Seq<char>, i: int)
    requires
        0 <= i <= entries.len(),
        forall|j: int| 0 <= j < i ==> entries[j].0 != YamlKeyView::<K>::Text(key),
        i == entries.len() || entries[i].0 == YamlKeyView::<K>::Text(key),
    ensures
        key_index(entries, key) == i,
    decreases i,
{
    if i > 0 {
        lemma_key_index(entries.drop_first(), key, i - 1);
    }
}

pub proof fn lemma_key_index_bounds<K, W>(entries: Seq<(YamlKeyView<K>, W)>, key: Seq<char>)
    ensures
        0 <= key_index(entries, key) <= entries.len(),
        forall|j: int|
            0 <= j < key_index(entries, key) ==> entries[j].0 != YamlKeyView::<K>::Text(key),
        key_index(entries, key) < entries.len() ==> entries[key_index(entries, key)].0
            == YamlKeyView::<K>::Text(key),
    decreases entries.len(),
{
    if entries.len() > 0 && entries[0].0 != YamlKeyView::<K>::Text(key) {
        lemma_key_index_bounds(entries.drop_first(), key);
        assert forall|j: int| 0 <= j < key_index(entries, key) implies entries[j].0
            != YamlKeyView::<K>::Text(key) by {
            if j > 0 {
                assert(entries[j] == entries.drop_first()[j - 1]);
            }
        }
    }
}

/// The value of the string key `key`, where the mapping has it.
pub open spec fn value_of<K, W>(entries: Seq<(YamlKeyView<K>, W)>, key: Seq<char>) -> Option<W> {
    let i = key_index(entries, key);
    if i < entries.len() {
        Some(entries[i].1)
    } else {
        None
    }
}

/// The mapping after inserting `value` under the string key `key`, as an ordered map
/// does it: an existing key keeps its place and takes the new value; a new key goes at
/// the end.
pub open spec fn mapping_inserted<K, W>(
    entries: Seq<(YamlKeyView<K>, W)>,
    key: Seq<char>,
    value: W,
) -> Seq<(YamlKeyView<K>, W)> {
    let i = key_index(entries, key);
    if i < entries.len() {
        entries.update(i, (entries[i].0, value))
    } else {
        entries.push((YamlKeyView::Text(key), value))
    }
}

/// Tests whether a key is the string `key`.
fn key_matches<K>(k: &YamlKey<K>, key: &str) -> (r: bool)
    ensures
        r == (k.deep_view() == YamlKeyView::<K>::Text(key@)),
{
    match k {
        YamlKey::Text(s) => crate::text::str_equal(s.as_str(), key),
        YamlKey::Other(_) => false,
    }
}

/// Inserts `value` under the string key `key`.
pub fn mapping_insert<K, V>(
    entries: &mut Vec<(YamlKey<K>, InfoValue<V>)>,
    key: &str,
    value: InfoValue<V>,
)
    ensures
        final(entries).deep_view() == mapping_inserted(
            old(entries).deep_view(),
            key@,
            value.deep_view(),
        ),
{
    let ghost old_v = entries.deep_view();
    let mut i: usize = 0;
    while i < entries.len() && !key_matches(&entries[i].0, key)
        invariant
            entries.deep_view() == old_v,
            i <= entries.len(),
            forall|j: int| 0 <= j < i ==> old_v[j].0 != YamlKeyView::<K>::Text(key@),
        decreases entries.len() - i,
    {
        i = i + 1;
    }
    let found = i < entries.len();
    proof {
        lemma_key_index(old_v, key@, i as int);
    }
    let ghost value_v = value.deep_view();
    if found {
        let ghost old_exec = entries@;
        let (k, _) = entries.remove(i);
        entries.insert(i, (k, value));
        assert(entries@ =~= old_exec.update(i as int, (k, value)));
        assert(entries.deep_view() =~= old_v.update(i as int, (old_v[i as int].0, value_v)));
    } else {
        entries.push((YamlKey::Text(key.to_owned()), value));
        assert(entries.deep_view() =~= old_v.push((YamlKeyView::Text(key@), value_v)));
    }
}

/// The `info` mapping after hydration: the operator's API group, API version, resource
/// reference, included tags and example field, inserted in that order.
pub open spec fn hydrated_info<K, V>(
    entries: Seq<(YamlKeyView<K>, InfoValueView<V>)>,
    api_group: Seq<char>,
    api_version: Seq<char>,
    resource_ref: Seq<char>,
    include_tags: Seq<Seq<char>>,
    field_ref: Seq<char>,
) -> Seq<(YamlKeyView<K>, InfoValueView<V>)> {
    mapping_inserted(
        mapping_inserted(
            mapping_inserted(
                mapping_inserted(
                    mapping_inserted(
                        entries,
                        crate::openapi::api_group_key(),
                        InfoValueView::Text(api_group),
                    ),
                    crate::openapi::api_version_key(),
                    InfoValueView::Text(api_version),
                ),
                crate::openapi::resource_ref_key(),
                InfoValueView::Text(resource_ref),
            ),
            crate::openapi::include_tags_key(),
            InfoValueView::List(include_tags),
        ),
        crate::openapi::field_ref_key(),
        InfoValueView::Text(field_ref),
    )
}

/// Hydrates the `info` mapping of a specification with the configuration.
pub fn hydrate_info<K, V>(info: &mut Vec<(YamlKey<K>, InfoValue<V>)>, conf: &Config)
    ensures
        final(info).deep_view() == hydrated_info(
            old(info).deep_view(),
            conf.api_group@,
            conf.api_version@,
            conf.resource_ref@,
            conf.include_tags.deep_view(),
            conf.example_metadata_spec_field_ref@,
        ),
{
    proof {
        reveal_strlit("x-kubernetes-operator-api-group");
        reveal_strlit("x-kubernetes-operator-api-version");
        reveal_strlit("x-kubernetes-operator-resource-ref");
        reveal_strlit("x-kubernetes-operator-include-tags");
        reveal_strlit("x-kubernetes-operator-example-metadata-spec-field-ref");
    }
    mapping_insert(info, "x-kubernetes-operator-api-group", InfoValue::Text(conf.api_group.clone()));
    mapping_insert(
        info,
        "x-kubernetes-operator-api-version",
        InfoValue::Text(conf.api_version.clone()),
    );
    mapping_insert(
        info,
        "x-kubernetes-operator-resource-ref",
        InfoValue::Text(conf.resource_ref.clone()),
    );
    mapping_insert(
        info,
        "x-kubernetes-operator-include-tags",
        InfoValue::List(clone_strings(&conf.include_tags)),
    );
    mapping_insert(
        info,
        "x-kubernetes-operator-example-metadata-spec-field-ref",
        InfoValue::Text(conf.example_metadata_spec_field_ref.clone()),
    );
}


proof fn lemma_inserted_sets<K, W>(entries: Seq<(YamlKeyView<K>, W)>, key: Seq<char>, value: W)
    ensures
        value_of(mapping_inserted(entries, key, value), key) == Some(value),
{
    lemma_key_index_bounds(entries, key);
    let i = key_index(entries, key);
    let n = mapping_inserted(entries, key, value);
    if i < entries.len() {
        lemma_key_index(n, key, i);
    } else {
        lemma_key_index(n, key, entries.len() as int);
    }
}

proof fn lemma_inserted_keeps<K, W>(
    entries: Seq<(YamlKeyView<K>, W)>,
    key: Seq<char>,
    value: W,
    other: Seq<char>,
)
    requires
        other != key,
    ensures
        value_of(mapping_inserted(entries, key, value), other) == value_of(entries, other),
{
    lemma_key_index_bounds(entries, key);
    lemma_key_index_bounds(entries, other);
    let i = key_index(entries, key);
    let j = key_index(entries, other);
    let n = mapping_inserted(entries, key, value);
    assert(YamlKeyView::<K>::Text(key) != YamlKeyView::<K>::Text(other));
    if i < entries.len() {
        lemma_key_index(n, other, j);
        if j < entries.len() {
            assert(j != i);
        }
    } else {
        if j < entries.len() {
            lemma_key_index(n, other, j);
        } else {
            lemma_key_index(n, other, n.len() as int);
        }
    }
}

proof fn lemma_inserted_same<K, W>(entries: Seq<(YamlKeyView<K>, W)>, key: Seq<char>, value: W)
    requires
        value_of(entries, key) == Some(value),
    ensures
        mapping_inserted(entries, key, value) == entries,
{
    lemma_key_index_bounds(entries, key);
    let i = key_index(entries, key);
    assert(i < entries.len());
    assert(entries[i].1 == value);
    assert((entries[i].0, value) == entries[i]);
    assert(entries.update(i, (entries[i].0, value)) =~= entries);
}

proof fn lemma_extension_keys_distinct()
    ensures
        crate::openapi::api_group_key() != crate::openapi::api_version_key(),
        crate::openapi::api_group_key() != crate::openapi::resource_ref_key(),
        crate::openapi::api_group_key() != crate::openapi::include_tags_key(),
        crate::openapi::api_group_key() != crate::openapi::field_ref_key(),
        crate::openapi::api_version_key() != crate::openapi::resource_ref_key(),
        crate::openapi::api_version_key() != crate::openapi::include_tags_key(),
        crate::openapi::api_version_key() != crate::openapi::field_ref_key(),
        crate::openapi::resource_ref_key() != crate::openapi::include_tags_key(),
        crate::openapi::resource_ref_key() != crate::openapi::field_ref_key(),
        crate::openapi::include_tags_key() != crate::openapi::field_ref_key(),
{
    reveal_strlit("x-kubernetes-operator-api-group");
    reveal_strlit("x-kubernetes-operator-api-version");
    reveal_strlit("x-kubernetes-operator-resource-ref");
    reveal_strlit("x-kubernetes-operator-include-tags");
    reveal_strlit("x-kubernetes-operator-example-metadata-spec-field-ref");
    let g = crate::openapi::api_group_key();
    let v = crate::openapi::api_version_key();
    let r = crate::openapi::resource_ref_key();
    let t = crate::openapi::include_tags_key();
    let f = crate::openapi::field_ref_key();
    assert(g.len() != v.len());
    assert(g[22] != r[22]);
    assert(g[22] != t[22]);
    assert(g.len() != f.len());
    assert(v[22] != r[22]);
    assert(v[22] != t[22]);
    assert(v.len() != f.len());
    assert(r[22] != t[22]);
    assert(r.len() != f.len());
    assert(t.len() != f.len());
}

/// After hydration the `info` mapping holds each of the operator's settings under its
/// extension key.
pub proof fn law_hydrate_sets_extensions<K, V>(
    entries: Seq<(YamlKeyView<K>, InfoValueView<V>)>,
    api_group: Seq<char>,
    api_version: Seq<char>,
    resource_ref: Seq<char>,
    include_tags: Seq<Seq<char>>,
    field_ref: Seq<char>,
)
    ensures
        ({
            let h = hydrated_info(entries, api_group, api_version, resource_ref, include_tags, field_ref);
            &&& value_of(h, crate::openapi::api_group_key()) == Some(InfoValueView::<V>::Text(api_group))
            &&& value_of(h, crate::openapi::api_version_key()) == Some(InfoValueView::<V>::Text(api_version))
            &&& value_of(h, crate::openapi::resource_ref_key()) == Some(InfoValueView::<V>::Text(resource_ref))
            &&& value_of(h, crate::openapi::include_tags_key()) == Some(InfoValueView::<V>::List(include_tags))
            &&& value_of(h, crate::openapi::field_ref_key()) == Some(InfoValueView::<V>::Text(field_ref))
        }),
{
    lemma_extension_keys_distinct();
    let g = crate::openapi::api_group_key();
    let v = crate::openapi::api_version_key();
    let r = crate::openapi::resource_ref_key();
    let t = crate::openapi::include_tags_key();
    let f = crate::openapi::field_ref_key();
    let e1 = mapping_inserted(entries, g, InfoValueView::<V>::Text(api_group));
    let e2 = mapping_inserted(e1, v, InfoValueView::<V>::Text(api_version));
    let e3 = mapping_inserted(e2, r, InfoValueView::<V>::Text(resource_ref));
    let e4 = mapping_inserted(e3, t, InfoValueView::<V>::List(include_tags));
    let e5 = mapping_inserted(e4, f, InfoValueView::<V>::Text(field_ref));
    lemma_inserted_sets(entries, g, InfoValueView::<V>::Text(api_group));
    lemma_inserted_sets(e1, v, InfoValueView::<V>::Text(api_version));
    lemma_inserted_sets(e2, r, InfoValueView::<V>::Text(resource_ref));
    lemma_inserted_sets(e3, t, InfoValueView::<V>::List(include_tags));
    lemma_inserted_sets(e4, f, InfoValueView::<V>::Text(field_ref));
    lemma_inserted_keeps(e1, v, InfoValueView::<V>::Text(api_version), g);
    lemma_inserted_keeps(e2, r, InfoValueView::<V>::Text(resource_ref), g);
    lemma_inserted_keeps(e2, r, InfoValueView::<V>::Text(resource_ref), v);
    lemma_inserted_keeps(e3, t, InfoValueView::<V>::List(include_tags), g);
    lemma_inserted_keeps(e3, t, InfoValueView::<V>::List(include_tags), v);
    lemma_inserted_keeps(e3, t, InfoValueView::<V>::List(include_tags), r);
    lemma_inserted_keeps(e4, f, InfoValueView::<V>::Text(field_ref), g);
    lemma_inserted_keeps(e4, f, InfoValueView::<V>::Text(field_ref), v);
    lemma_inserted_keeps(e4, f, InfoValueView::<V>::Text(field_ref), r);
    lemma_inserted_keeps(e4, f, InfoValueView::<V>::Text(field_ref), t);
}

/// Hydration leaves the value of every other string key of the `info` mapping as it
/// was.
pub proof fn law_hydrate_preserves_other_keys<K, V>(
    entries: Seq<(YamlKeyView<K>, InfoValueView<V>)>,
    api_group: Seq<char>,
    api_version: Seq<char>,
    resource_ref: Seq<char>,
    include_tags: Seq<Seq<char>>,
    field_ref: Seq<char>,
    key: Seq<char>,
)
    requires
        !crate::openapi::required_extension_keys().contains(key),
    ensures
        value_of(
            hydrated_info(entries, api_group, api_version, resource_ref, include_tags, field_ref),
            key,
        ) == value_of(entries, key),
{
    let g = crate::openapi::api_group_key();
    let v = crate::openapi::api_version_key();
    let r = crate::openapi::resource_ref_key();
    let t = crate::openapi::include_tags_key();
    let f = crate::openapi::field_ref_key();
    assert(crate::openapi::required_extension_keys()[0] == g);
    assert(crate::openapi::required_extension_keys()[1] == v);
    assert(crate::openapi::required_extension_keys()[2] == r);
    assert(crate::openapi::required_extension_keys()[3] == t);
    assert(crate::openapi::required_extension_keys()[4] == f);
    let e1 = mapping_inserted(entries, g, InfoValueView::<V>::Text(api_group));
    let e2 = mapping_inserted(e1, v, InfoValueView::<V>::Text(api_version));
    let e3 = mapping_inserted(e2, r, InfoValueView::<V>::Text(resource_ref));
    let e4 = mapping_inserted(e3, t, InfoValueView::<V>::List(include_tags));
    lemma_inserted_keeps(entries, g, InfoValueView::<V>::Text(api_group), key);
    lemma_inserted_keeps(e1, v, InfoValueView::<V>::Text(api_version), key);
    lemma_inserted_keeps(e2, r, InfoValueView::<V>::Text(resource_ref), key);
    lemma_inserted_keeps(e3, t, InfoValueView::<V>::List(include_tags), key);
    lemma_inserted_keeps(e4, f, InfoValueView::<V>::Text(field_ref), key);
}

/// Hydrating a hydrated `info` mapping with the same settings changes nothing.
pub proof fn law_hydrate_idempotent<K, V>(
    entries: Seq<(YamlKeyView<K>, InfoValueView<V>)>,
    api_group: Seq<char>,
    api_version: Seq<char>,
    resource_ref: Seq<char>,
    include_tags: Seq<Seq<char>>,
    field_ref: Seq<char>,
)
    ensures
        ({
            let h = hydrated_info(entries, api_group, api_version, resource_ref, include_tags, field_ref);
            hydrated_info(h, api_group, api_version, resource_ref, include_tags, field_ref) == h
        }),
{
    let h = hydrated_info(entries, api_group, api_version, resource_ref, include_tags, field_ref);
    law_hydrate_sets_extensions(entries, api_group, api_version, resource_ref, include_tags, field_ref);
    lemma_inserted_same(h, crate::openapi::api_group_key(), InfoValueView::<V>::Text(api_group));
    lemma_inserted_same(h, crate::openapi::api_version_key(), InfoValueView::<V>::Text(api_version));
    lemma_inserted_same(h, crate::openapi::resource_ref_key(), InfoValueView::<V>::Text(resource_ref));
    lemma_inserted_same(h, crate::openapi::include_tags_key(), InfoValueView::<V>::List(include_tags));
    lemma_inserted_same(h, crate::openapi::field_ref_key(), InfoValueView::<V>::Text(field_ref));
}

/// How an extension read from a document stands to the `info` value it was written
/// from: a string as the same string, a list as an array of the same strings, a value
/// that was there before as some value, and no value as no extension.
pub open spec fn reads_as<V>(e: Option<ExtensionValue>, v: Option<InfoValueView<V>>) -> bool {
    match v {
        None => e is None,
        Some(InfoValueView::Text(s)) => e matches Some(ExtensionValue::String(x)) && x@ == s,
        Some(InfoValueView::List(l)) => e matches Some(ExtensionValue::Array(items)) && all_strings(
            items@,
        ) && string_items(items@) == l,
        Some(InfoValueView::Existing(_)) => e is Some,
    }
}

/// The extensions read from a document whose `info` mapping is `info`: each key that
/// begins with `x-` looks up as it was written.
pub open spec fn read_back<K, V>(
    extensions: Seq<(String, ExtensionValue)>,
    info: Seq<(YamlKeyView<K>, InfoValueView<V>)>,
) -> bool {
    forall|k: Seq<char>|
        has_prefix(k, "x-"@) ==> #[trigger] reads_as(lookup(extensions, k), value_of(info, k))
}

/// What the generator reads from a hydrated document is the configuration it was hydrated
/// with: every required extension is there, and each holds the configured value.
pub proof fn law_hydrated_document_reads_back<K, V>(
    entries: Seq<(YamlKeyView<K>, InfoValueView<V>)>,
    api_group: Seq<char>,
    api_version: Seq<char>,
    resource_ref: Seq<char>,
    include_tags: Seq<Seq<char>>,
    field_ref: Seq<char>,
    extensions: Seq<(String, ExtensionValue)>,
)
    requires
        read_back(
            extensions,
            hydrated_info(entries, api_group, api_version, resource_ref, include_tags, field_ref),
        ),
    ensures
        info_is_complete(extensions),
        extension_string(extensions, api_group_key()) == Some(api_group),
        extension_string(extensions, api_version_key()) == Some(api_version),
        extension_string(extensions, resource_ref_key()) == Some(resource_ref),
        extension_strings(extensions, include_tags_key()) == Some(include_tags),
        extension_string(extensions, field_ref_key()) == Some(field_ref),
{
    let h = hydrated_info(entries, api_group, api_version, resource_ref, include_tags, field_ref);
    law_hydrate_sets_extensions(entries, api_group, api_version, resource_ref, include_tags, field_ref);
    reveal_strlit("x-");
    reveal_strlit("x-kubernetes-operator-api-group");
    reveal_strlit("x-kubernetes-operator-api-version");
    reveal_strlit("x-kubernetes-operator-resource-ref");
    reveal_strlit("x-kubernetes-operator-include-tags");
    reveal_strlit("x-kubernetes-operator-example-metadata-spec-field-ref");
    assert(has_prefix(api_group_key(), "x-"@)) by {
        assert(api_group_key().subrange(0, 2) =~= "x-"@);
    }
    assert(has_prefix(api_version_key(), "x-"@)) by {
        assert(api_version_key().subrange(0, 2) =~= "x-"@);
    }
    assert(has_prefix(resource_ref_key(), "x-"@)) by {
        assert(resource_ref_key().subrange(0, 2) =~= "x-"@);
    }
    assert(has_prefix(include_tags_key(), "x-"@)) by {
        assert(include_tags_key().subrange(0, 2) =~= "x-"@);
    }
    assert(has_prefix(field_ref_key(), "x-"@)) by {
        assert(field_ref_key().subrange(0, 2) =~= "x-"@);
    }
    assert(reads_as(lookup(extensions, api_group_key()), value_of(h, api_group_key())));
    assert(reads_as(lookup(extensions, api_version_key()), value_of(h, api_version_key())));
    assert(reads_as(lookup(extensions, resource_ref_key()), value_of(h, resource_ref_key())));
    assert(reads_as(lookup(extensions, include_tags_key()), value_of(h, include_tags_key())));
    assert(reads_as(lookup(extensions, field_ref_key()), value_of(h, field_ref_key())));
}


/// The problem a specification's shape has, where hydration refuses it.
pub open spec fn shape_problem(shape: SpecShape) -> Option<Seq<char>> {
    match shape {
        SpecShape::Empty => Some("OpenAPI spec file is empty"@),
        SpecShape::Mapping { has_openapi, has_info } => if !has_openapi {
            Some("OpenAPI spec is missing required 'openapi' field"@)
        } else if !has_info {
            Some("OpenAPI spec is missing required 'info' field"@)
        } else {
            None
        },
        SpecShape::Other => None,
    }
}

/// An entry of a parsed `info` mapping at position `i`: its key a string or the `i`-th
/// key, its value the `i`-th value.
pub open spec fn positional(entry: (YamlKeyView<usize>, InfoValueView<usize>), i: int) -> bool {
    &&& match entry.0 {
        YamlKeyView::Text(_) => true,
        YamlKeyView::Other(k) => k == i,
    }
    &&& entry.1 == InfoValueView::<usize>::Existing(i as usize)
}

/// Every position that the entries refer to is below `n`.
pub open spec fn indices_below(entries: Seq<(YamlKeyView<usize>, InfoValueView<usize>)>, n: nat) -> bool {
    forall|i: int|
        0 <= i < entries.len() ==> {
            &&& match (#[trigger] entries[i]).0 {
                YamlKeyView::Text(_) => true,
                YamlKeyView::Other(k) => k < n,
            }
            &&& match entries[i].1 {
                InfoValueView::Existing(k) => k < n,
                _ => true,
            }
        }
}

/// The top of a parsed specification file: no document, a mapping with its keys in order
/// (a string key as its string, another key as `None`), or any other value.
#[derive(Debug)]
pub enum DocumentTop {
    Empty,
    Mapping(Vec<Option<String>>),
    Other,
}

/// The view of the top of a specification file.
pub enum DocumentTopView {
    Empty,
    Mapping(Seq<Option<Seq<char>>>),
    Other,
}

impl DeepView for DocumentTop {
    type V = DocumentTopView;

    open spec fn deep_view(&self) -> DocumentTopView {
        match self {
            DocumentTop::Empty => DocumentTopView::Empty,
            DocumentTop::Mapping(keys) => DocumentTopView::Mapping(keys.deep_view()),
            DocumentTop::Other => DocumentTopView::Other,
        }
    }
}

/// The shape that hydration checks of the top of a specification file: a mapping has the
/// `openapi` or `info` key where one of its keys is that string.
pub open spec fn shape_of_top(top: DocumentTopView) -> SpecShape {
    match top {
        DocumentTopView::Empty => SpecShape::Empty,
        DocumentTopView::Mapping(keys) => SpecShape::Mapping {
            has_openapi: keys.contains(Some("openapi"@)),
            has_info: keys.contains(Some("info"@)),
        },
        DocumentTopView::Other => SpecShape::Other,
    }
}

/// Tests whether one of the keys is the string `key`.
fn has_string_key(keys: &Vec<Option<String>>, key: &str) -> (r: bool)
    ensures
        r == keys.deep_view().contains(Some(key@)),
{
    let mut i: usize = 0;
    while i < keys.len()
        invariant
            i <= keys@.len(),
            forall|j: int| 0 <= j < i ==> keys.deep_view()[j] != Some(key@),
        decreases keys.len() - i,
    {
        assert(keys.deep_view()[i as int] == keys@[i as int].deep_view());
        match &keys[i] {
            Some(k) => {
                if crate::text::str_equal(k.as_str(), key) {
                    assert(keys.deep_view()[i as int] == Some(key@));
                    return true;
                }
            },
            None => {},
        }
        i = i + 1;
    }
    false
}

/// The shape of the top of a specification file.
pub fn spec_shape(top: &DocumentTop) -> (s: SpecShape)
    ensures
        s == shape_of_top(top.deep_view()),
{
    proof {
        reveal_strlit("openapi");
        reveal_strlit("info");
    }
    match top {
        DocumentTop::Empty => SpecShape::Empty,
        DocumentTop::Mapping(keys) => SpecShape::Mapping {
            has_openapi: has_string_key(keys, "openapi"),
            has_info: has_string_key(keys, "info"),
        },
        DocumentTop::Other => SpecShape::Other,
    }
}

/// What `serde_yaml::from_str` makes of a specification's text, given by its top and,
/// where its `info` is a mapping, that mapping's entries: a string key as its string,
/// another key and every value by its position in the mapping; the parser's message where
/// the text is not YAML.
pub uninterp spec fn parsed_spec(text: Seq<char>) -> Result<
    (DocumentTopView, Option<Seq<(YamlKeyView<usize>, InfoValueView<usize>)>>),
    Seq<char>,
>;

/// Parses a specification's text with `serde_yaml::from_str` into a `serde_yaml::Value`
/// and hands over its top and its `info` mapping, or the parser's message. The contract
/// names the result `parsed_spec` of the text, and states that each entry stands at its
/// own position.
#[verifier::external_body]
pub(crate) fn parse_spec(text: &str) -> (r: Result<(DocumentTop, Option<Vec<(YamlKey<usize>, InfoValue<usize>)>>), String>)
    ensures
        match r {
            Err(m) => parsed_spec(text@) == Err::<(DocumentTopView, Option<Seq<(YamlKeyView<usize>, InfoValueView<usize>)>>), Seq<char>>(m@),
            Ok((top, info)) => parsed_spec(text@) == Ok::<(DocumentTopView, Option<Seq<(YamlKeyView<usize>, InfoValueView<usize>)>>), Seq<char>>((top.deep_view(), info.deep_view())),
        },
        r matches Ok((_, Some(e))) ==> forall|i: int|
            0 <= i < e@.len() ==> positional(#[trigger] e.deep_view()[i], i),
{
    match serde_yaml::from_str::<serde_yaml::Value>(text) {
        Ok(doc) => Ok((top_of(&doc), info_entries_of(&doc))),
        Err(e) => Err(e.to_string()),
    }
}

/// The top of a parsed document: `Null` as no document, a mapping with its keys, a
/// string key as its string and another key as `None`, anything else as `Other`.
#[verifier::external_body]
fn top_of(doc: &serde_yaml::Value) -> DocumentTop {
    match doc {
        serde_yaml::Value::Null => DocumentTop::Empty,
        serde_yaml::Value::Mapping(m) => DocumentTop::Mapping(m.keys().map(|k| match k {
            serde_yaml::Value::String(s) => Some(s.clone()),
            _ => None,
        }).collect()),
        _ => DocumentTop::Other,
    }
}

/// The entries of a parsed document's `info` mapping, a string key as its string and
/// another key and each value by its position.
#[verifier::external_body]
fn info_entries_of(doc: &serde_yaml::Value) -> Option<Vec<(YamlKey<usize>, InfoValue<usize>)>> {
    let m = doc.get("info")?.as_mapping()?;
    Some(m.iter().enumerate().map(|(i, (k, _))| (match k {
        serde_yaml::Value::String(s) => YamlKey::Text(s.clone()),
        _ => YamlKey::Other(i),
    }, InfoValue::Existing(i))).collect())
}

/// What `serde_yaml::to_string` writes for the document that a specification's text
/// parses to, or the message of the parser or the writer.
pub uninterp spec fn rendered_spec(text: Seq<char>) -> Result<Seq<char>, Seq<char>>;

/// Parses a specification's text and writes it back with `serde_yaml::to_string`. The
/// contract names the result `rendered_spec` of the text.
#[verifier::external_body]
fn render_spec(text: &str) -> (r: Result<String, String>)
    ensures
        match r {
            Err(m) => rendered_spec(text@) == Err::<Seq<char>, Seq<char>>(m@),
            Ok(t) => rendered_spec(text@) == Ok::<Seq<char>, Seq<char>>(t@),
        },
{
    let doc: serde_yaml::Value = serde_yaml::from_str(text).map_err(|e| e.to_string())?;
    serde_yaml::to_string(&doc).map_err(|e| e.to_string())
}

/// What `serde_yaml::to_string` writes for the document of a specification's text with its
/// `info` mapping replaced by the given entries, a key or value given by a position taken
/// from the original mapping; or the message of the parser or the writer.
pub uninterp spec fn rendered_spec_with_info(
    text: Seq<char>,
    info: Seq<(YamlKeyView<usize>, InfoValueView<usize>)>,
) -> Result<Seq<char>, Seq<char>>;

/// Parses a specification's text, replaces its `info` mapping by the given entries, a key
/// or value given by its position copied from the original mapping, a string key or value
/// as a YAML string and a list as a YAML sequence of strings, and writes the document
/// with `serde_yaml::to_string`. The contract names the result `rendered_spec_with_info`.
#[verifier::external_body]
fn render_spec_with_info(text: &str, info: &Vec<(YamlKey<usize>, InfoValue<usize>)>) -> (r: Result<String, String>)
    requires
        parsed_spec(text@) matches Ok((_, Some(e))) && indices_below(info.deep_view(), e.len()),
    ensures
        match r {
            Err(m) => rendered_spec_with_info(text@, info.deep_view()) == Err::<Seq<char>, Seq<char>>(m@),
            Ok(t) => rendered_spec_with_info(text@, info.deep_view()) == Ok::<Seq<char>, Seq<char>>(t@),
        },
{
    let mut doc: serde_yaml::Value = serde_yaml::from_str(text).map_err(|e| e.to_string())?;
    let old = info_pairs(&doc);
    doc["info"] = serde_yaml::Value::Mapping(info.iter().map(|(k, v)| (yaml_key(k, &old), yaml_value(v, &old))).collect());
    serde_yaml::to_string(&doc).map_err(|e| e.to_string())
}

/// The keys and values of a parsed document's `info` mapping, in order; empty where `info`
/// is not a mapping.
#[verifier::external_body]
fn info_pairs(doc: &serde_yaml::Value) -> Vec<(serde_yaml::Value, serde_yaml::Value)> {
    match doc.get("info").and_then(|i| i.as_mapping()) {
        Some(m) => m.clone().into_iter().collect(),
        None => Vec::new(),
    }
}

/// A key of a rendered `info` mapping: a string as a YAML string, a position as the key
/// at that position of the original mapping, which has that many entries.
#[verifier::external_body]
fn yaml_key(k: &YamlKey<usize>, old: &Vec<(serde_yaml::Value, serde_yaml::Value)>) -> serde_yaml::Value
    requires
        *k matches YamlKey::Other(i) ==> i < old@.len(),
{
    match k {
        YamlKey::Text(s) => serde_yaml::Value::String(s.clone()),
        YamlKey::Other(i) => old[*i].0.clone(),
    }
}

/// A value of a rendered `info` mapping: a position as the value at that position of the
/// original mapping, which has that many entries, a string as a YAML string, a list as a
/// YAML sequence of strings.
#[verifier::external_body]
fn yaml_value(v: &InfoValue<usize>, old: &Vec<(serde_yaml::Value, serde_yaml::Value)>) -> serde_yaml::Value
    requires
        *v matches InfoValue::Existing(i) ==> i < old@.len(),
{
    match v {
        InfoValue::Existing(i) => old[*i].1.clone(),
        InfoValue::Text(s) => serde_yaml::Value::String(s.clone()),
        InfoValue::List(l) => serde_yaml::Value::Sequence(l.iter().cloned().map(serde_yaml::Value::String).collect()),
    }
}

proof fn lemma_key_index_nonnegative<K, W>(entries: Seq<(YamlKeyView<K>, W)>, key: Seq<char>)
    ensures
        0 <= key_index(entries, key) <= entries.len(),
    decreases entries.len(),
{
    if entries.len() > 0 {
        lemma_key_index_nonnegative(entries.drop_first(), key);
    }
}

proof fn lemma_inserted_indices(
    entries: Seq<(YamlKeyView<usize>, InfoValueView<usize>)>,
    key: Seq<char>,
    value: InfoValueView<usize>,
    n: nat,
)
    requires
        indices_below(entries, n),
        !(value is Existing),
    ensures
        indices_below(mapping_inserted(entries, key, value), n),
{
    let r = mapping_inserted(entries, key, value);
    lemma_key_index_nonnegative(entries, key);
    assert forall|i: int| 0 <= i < r.len() implies {
        &&& match (#[trigger] r[i]).0 {
            YamlKeyView::Text(_) => true,
            YamlKeyView::Other(k) => k < n,
        }
        &&& match r[i].1 {
            InfoValueView::Existing(k) => k < n,
            _ => true,
        }
    } by {
        let idx = key_index(entries, key);
        if idx < entries.len() {
            assert(r == entries.update(idx, (entries[idx].0, value)));
            if i != idx {
                assert(r[i] == entries[i]);
            } else {
                assert(r[i] == (entries[idx].0, value));
                assert(entries[idx] == entries[idx]);
            }
        } else {
            assert(r == entries.push((YamlKeyView::<usize>::Text(key), value)));
            if i < entries.len() {
                assert(r[i] == entries[i]);
            }
        }
    }
}

/// Hydrates the text of a specification with the configuration: refuses a text that is
/// not YAML or whose shape hydration refuses, replaces the extensions of a mapping `info`,
/// and writes the document back.
pub fn hydrate_text(text: &str, conf: &Config) -> (r: Result<String, AppError>)
    ensures
        match parsed_spec(text@) {
            Err(m) => r matches Err(AppError::YamlError(e)) && e@ == m,
            Ok((top, info)) => match shape_problem(shape_of_top(top)) {
                Some(m) => r matches Err(AppError::ConfigError(e)) && e@ == m,
                None => match info {
                    None => written(rendered_spec(text@), r),
                    Some(e) => written(
                        rendered_spec_with_info(
                            text@,
                            hydrated_info(
                                e,
                                conf.api_group@,
                                conf.api_version@,
                                conf.resource_ref@,
                                conf.include_tags.deep_view(),
                                conf.example_metadata_spec_field_ref@,
                            ),
                        ),
                        r,
                    ),
                },
            },
        },
{
    let (top, info) = match parse_spec(text) {
        Err(m) => {
            return Err(AppError::YamlError(m));
        },
        Ok(p) => p,
    };
    let shape = spec_shape(&top);
    match validate_spec_shape(&shape) {
        Err(e) => {
            return Err(e);
        },
        Ok(()) => {},
    }
    match info {
        None => match render_spec(text) {
            Err(m) => Err(AppError::YamlError(m)),
            Ok(t) => Ok(t),
        },
        Some(mut entries) => {
            let ghost e0 = entries.deep_view();
            let ghost n = e0.len();
            proof {
                assert(indices_below(e0, n)) by {
                    assert forall|i: int| 0 <= i < e0.len() implies {
                        &&& match (#[trigger] e0[i]).0 {
                            YamlKeyView::Text(_) => true,
                            YamlKeyView::Other(k) => k < n,
                        }
                        &&& match e0[i].1 {
                            InfoValueView::Existing(k) => k < n,
                            _ => true,
                        }
                    } by {
                        assert(positional(e0[i], i));
                    }
                }
            }
            hydrate_info(&mut entries, conf);
            proof {
                let g = conf.api_group@;
                let v = conf.api_version@;
                let rr = conf.resource_ref@;
                let tags = conf.include_tags.deep_view();
                let f = conf.example_metadata_spec_field_ref@;
                let e1 = mapping_inserted(e0, crate::openapi::api_group_key(), InfoValueView::<usize>::Text(g));
                lemma_inserted_indices(e0, crate::openapi::api_group_key(), InfoValueView::<usize>::Text(g), n);
                let e2 = mapping_inserted(e1, crate::openapi::api_version_key(), InfoValueView::<usize>::Text(v));
                lemma_inserted_indices(e1, crate::openapi::api_version_key(), InfoValueView::<usize>::Text(v), n);
                let e3 = mapping_inserted(e2, crate::openapi::resource_ref_key(), InfoValueView::<usize>::Text(rr));
                lemma_inserted_indices(e2, crate::openapi::resource_ref_key(), InfoValueView::<usize>::Text(rr), n);
                let e4 = mapping_inserted(e3, crate::openapi::include_tags_key(), InfoValueView::<usize>::List(tags));
                lemma_inserted_indices(e3, crate::openapi::include_tags_key(), InfoValueView::<usize>::List(tags), n);
                lemma_inserted_indices(e4, crate::openapi::field_ref_key(), InfoValueView::<usize>::Text(f), n);
            }
            match render_spec_with_info(text, &entries) {
                Err(m) => Err(AppError::YamlError(m)),
                Ok(t) => Ok(t),
            }
        },
    }
}

/// The result of writing a document: its text, or a YAML error with the writer's message.
pub open spec fn written(rendered: Result<Seq<char>, Seq<char>>, r: Result<String, AppError>) -> bool {
    match rendered {
        Ok(t) => r matches Ok(s) && s@ == t,
        Err(m) => r matches Err(AppError::YamlError(e)) && e@ == m,
    }
}

} // verus!
