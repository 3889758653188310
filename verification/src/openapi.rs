//! The parts of an OpenAPI document that the generator reads.

use vstd::prelude::*;

use crate::errors::AppError;

verus! {

/// The kind of a schema property.
#[derive(Debug)]
pub enum PropertyKind {
    /// A `$ref` to another schema.
    Reference,
    String,
    Integer,
    Number,
    Boolean,
    Array,
    Object,
    /// Any other kind, such as `oneOf`.
    Other,
}

/// An object schema: its properties in document order and its required properties.
#[derive(Debug)]
pub struct ObjectSchema {
    pub properties: Vec<(String, PropertyKind)>,
    pub required: Vec<String>,
}

/// A schema of the document's components.
#[derive(Debug)]
pub enum ComponentSchema {
    Object(ObjectSchema),
    /// A `$ref` to another schema.
    Reference,
    /// A schema that is not an object.
    Other,
}

/// An operation of a path.
#[derive(Debug)]
pub struct PathOperation {
    pub tags: Vec<String>,
    pub operation_id: Option<String>,
    pub summary: Option<String>,
}

/// The operations of a path that the generator looks at.
#[derive(Debug)]
pub struct PathItem {
    pub get: Option<PathOperation>,
    pub post: Option<PathOperation>,
    pub delete: Option<PathOperation>,
    pub put: Option<PathOperation>,
}

/// The value of an `x-` extension of the document's `info` object.
#[derive(Debug)]
pub enum ExtensionValue {
    String(String),
    /// An array; each element is `Some` where it is a string.
    Array(Vec<Option<String>>),
    Other,
}

/// The value of the first entry whose key is `key`.
pub open spec fn lookup<V>(entries: Seq<(String, V)>, key: Seq<char>) -> Option<V>
    decreases entries.len(),
{
    if entries.len() == 0 {
        None
    } else if entries[0].0@ == key {
        Some(entries[0].1)
    } else {
        lookup(entries.drop_first(), key)
    }
}

pub proof fn lemma_lookup_index<V>(entries: Seq<(String, V)>, key: Seq<char>, i: int)
    requires
        0 <= i < entries.len(),
        entries[i].0@ == key,
        forall|k: int| 0 <= k < i ==> entries[k].0@ != key,
    ensures
        lookup(entries, key) == Some(entries[i].1),
    decreases i,
{
    if i > 0 {
        lemma_lookup_index(entries.drop_first(), key, i - 1);
    }
}

pub proof fn lemma_lookup_none<V>(entries: Seq<(String, V)>, key: Seq<char>)
    requires
        forall|k: int| 0 <= k < entries.len() ==> entries[k].0@ != key,
    ensures
        lookup(entries, key) is None,
    decreases entries.len(),
{
    if entries.len() > 0 {
        lemma_lookup_none(entries.drop_first(), key);
    }
}

/// The position of the first entry whose key is `key`.
pub fn find_entry<V>(entries: &Vec<(String, V)>, key: &str) -> (r: Option<usize>)
    ensures
        match r {
            Some(i) => i < entries@.len() && lookup(entries@, key@) == Some(entries@[i as int].1),
            None => lookup(entries@, key@) is None,
        },
{
    let k = key.to_owned();
    let mut i: usize = 0;
    while i < entries.len()
        invariant
            k@ == key@,
            i <= entries@.len(),
            forall|j: int| 0 <= j < i ==> entries@[j].0@ != key@,
        decreases entries.len() - i,
    {
        if entries[i].0 == k {
            proof {
                lemma_lookup_index(entries@, key@, i as int);
            }
            return Some(i);
        }
        i = i + 1;
    }
    proof {
        lemma_lookup_none(entries@, key@);
    }
    None
}

/// The extension that names the operator's API group.
pub open spec fn api_group_key() -> Seq<char> {
    "x-kubernetes-operator-api-group"@
}

/// The extension that names the operator's API version.
pub open spec fn api_version_key() -> Seq<char> {
    "x-kubernetes-operator-api-version"@
}

/// The extension that names the remote resource reference.
pub open spec fn resource_ref_key() -> Seq<char> {
    "x-kubernetes-operator-resource-ref"@
}

/// The extension that lists the tags to generate controllers for.
pub open spec fn include_tags_key() -> Seq<char> {
    "x-kubernetes-operator-include-tags"@
}

/// The extension that names the example field used as the metadata name.
pub open spec fn field_ref_key() -> Seq<char> {
    "x-kubernetes-operator-example-metadata-spec-field-ref"@
}

/// The required extensions, in the order in which they are checked.
pub open spec fn required_extension_keys() -> Seq<Seq<char>> {
    seq![api_group_key(), api_version_key(), resource_ref_key(), include_tags_key(), field_ref_key()]
}

/// The first required extension that `extensions` lacks.
pub open spec fn first_missing_extension(extensions: Seq<(String, ExtensionValue)>) -> Option<
    Seq<char>,
> {
    if lookup(extensions, api_group_key()) is None {
        Some(api_group_key())
    } else if lookup(extensions, api_version_key()) is None {
        Some(api_version_key())
    } else if lookup(extensions, resource_ref_key()) is None {
        Some(resource_ref_key())
    } else if lookup(extensions, include_tags_key()) is None {
        Some(include_tags_key())
    } else if lookup(extensions, field_ref_key()) is None {
        Some(field_ref_key())
    } else {
        None
    }
}

/// Checks that the document's `info` object has every required extension.
pub fn validate_openapi_kubernetes_extensions_exists(extensions: &Vec<(String, ExtensionValue)>) -> (r:
    Result<(), AppError>)
    ensures
        match first_missing_extension(extensions@) {
            None => r is Ok,
            Some(key) => r matches Err(AppError::MissingRequiredExtension(k)) && k@ == key,
        },
{
    let keys: [&str; 5] = [
        "x-kubernetes-operator-api-group",
        "x-kubernetes-operator-api-version",
        "x-kubernetes-operator-resource-ref",
        "x-kubernetes-operator-include-tags",
        "x-kubernetes-operator-example-metadata-spec-field-ref",
    ];
    proof {
        reveal_strlit("x-kubernetes-operator-api-group");
        reveal_strlit("x-kubernetes-operator-api-version");
        reveal_strlit("x-kubernetes-operator-resource-ref");
        reveal_strlit("x-kubernetes-operator-include-tags");
        reveal_strlit("x-kubernetes-operator-example-metadata-spec-field-ref");
    }
    let mut i: usize = 0;
    while i < 5
        invariant
            i <= 5,
            keys@.len() == 5,
            forall|j: int| 0 <= j < 5 ==> #[trigger] keys@[j]@ == required_extension_keys()[j],
            forall|j: int| 0 <= j < i ==> lookup(extensions@, required_extension_keys()[j]) is Some,
        decreases 5 - i,
    {
        let key = keys[i];
        if find_entry(extensions, key).is_none() {
            return Err(AppError::MissingRequiredExtension(key.to_owned()));
        }
        i = i + 1;
    }
    Ok(())
}

/// The string value of an extension.
pub open spec fn extension_string(extensions: Seq<(String, ExtensionValue)>, key: Seq<char>) -> Option<
    Seq<char>,
> {
    match lookup(extensions, key) {
        Some(ExtensionValue::String(s)) => Some(s@),
        _ => None,
    }
}

/// Reads a string extension.
pub fn extract_extension(extensions: &Vec<(String, ExtensionValue)>, key: &str) -> (r: Result<
    String,
    AppError,
>)
    ensures
        match lookup(extensions@, key@) {
            None => r matches Err(AppError::MissingRequiredExtension(k)) && k@ == key@,
            Some(ExtensionValue::String(s)) => r matches Ok(v) && v@ == s@,
            Some(_) => r matches Err(AppError::ConfigError(m)) && m@ == key@
                + " is not a string"@,
        },
{
    match find_entry(extensions, key) {
        None => Err(AppError::MissingRequiredExtension(key.to_owned())),
        Some(i) => match &extensions[i].1 {
            ExtensionValue::String(s) => Ok(s.clone()),
            _ => {
                let m = key.to_owned().concat(" is not a string");
                Err(AppError::ConfigError(m))
            },
        },
    }
}

/// The strings of an array whose elements are all strings.
pub open spec fn all_strings(items: Seq<Option<String>>) -> bool {
    forall|i: int| 0 <= i < items.len() ==> items[i] is Some
}

/// The views of an array's elements, which are all strings.
pub open spec fn string_items(items: Seq<Option<String>>) -> Seq<Seq<char>> {
    Seq::new(items.len(), |i: int| items[i]->0@)
}

/// The strings of an array-of-strings extension.
pub open spec fn extension_strings(extensions: Seq<(String, ExtensionValue)>, key: Seq<char>) -> Option<
    Seq<Seq<char>>,
> {
    match lookup(extensions, key) {
        Some(ExtensionValue::Array(items)) => if all_strings(items@) {
            Some(string_items(items@))
        } else {
            None
        },
        _ => None,
    }
}

/// Reads an array-of-strings extension.
pub fn extract_extension_array(extensions: &Vec<(String, ExtensionValue)>, key: &str) -> (r: Result<
    Vec<String>,
    AppError,
>)
    ensures
        match lookup(extensions@, key@) {
            None => r matches Err(AppError::MissingRequiredExtension(k)) && k@ == key@,
            Some(ExtensionValue::Array(items)) => if all_strings(items@) {
                r matches Ok(v) && v.deep_view() == string_items(items@)
            } else {
                r matches Err(AppError::ConfigError(m)) && m@ == key@
                    + " is not an array of strings"@
            },
            Some(_) => r matches Err(AppError::ConfigError(m)) && m@ == key@
                + " is not an array"@,
        },
{
    match find_entry(extensions, key) {
        None => Err(AppError::MissingRequiredExtension(key.to_owned())),
        Some(i) => match &extensions[i].1 {
            ExtensionValue::Array(items) => {
                let mut out: Vec<String> = Vec::new();
                let mut j: usize = 0;
                while j < items.len()
                    invariant
                        i < extensions@.len(),
                        lookup(extensions@, key@) == Some(extensions@[i as int].1),
                        extensions@[i as int].1 == ExtensionValue::Array(*items),
                        j <= items@.len(),
                        forall|k: int| 0 <= k < j ==> items@[k] is Some,
                        out.deep_view() == string_items(items@.subrange(0, j as int)),
                    decreases items.len() - j,
                {
                    match &items[j] {
                        Some(s) => {
                            let ghost old_out = out.deep_view();
                            let c = s.clone();
                            out.push(c);
                            assert(out.deep_view() =~= old_out.push(c@));
                            assert(items@[j as int]->0@ == c@);
                            assert(out.deep_view() =~= string_items(items@.subrange(0, j + 1)));
                        },
                        None => {
                            assert(!all_strings(items@));
                            let m = key.to_owned().concat(" is not an array of strings");
                            return Err(AppError::ConfigError(m));
                        },
                    }
                    j = j + 1;
                }
                assert(items@.subrange(0, j as int) =~= items@);
                Ok(out)
            },
            _ => {
                let m = key.to_owned().concat(" is not an array");
                Err(AppError::ConfigError(m))
            },
        },
    }
}

/// Holds where every required extension is there with a value of its kind.
pub open spec fn info_is_complete(extensions: Seq<(String, ExtensionValue)>) -> bool {
    &&& extension_string(extensions, api_group_key()) is Some
    &&& extension_string(extensions, api_version_key()) is Some
    &&& extension_string(extensions, resource_ref_key()) is Some
    &&& extension_strings(extensions, include_tags_key()) is Some
    &&& extension_string(extensions, field_ref_key()) is Some
}

/// What the generator reads from the extensions of the document's `info` object.
#[derive(Debug)]
pub struct OpenApiInfo {
    pub api_group: String,
    pub api_version: String,
    pub resource_ref: String,
    pub include_tags: Vec<String>,
    pub example_metadata_spec_field_ref: String,
}

/// The message for an extension that should hold a string and holds another value.
pub open spec fn string_problem(extensions: Seq<(String, ExtensionValue)>, key: Seq<char>) -> Option<
    Seq<char>,
> {
    match lookup(extensions, key) {
        None => None,
        Some(ExtensionValue::String(_)) => None,
        Some(_) => Some(key + " is not a string"@),
    }
}

/// The message for an extension that should hold an array of strings and holds another
/// value.
pub open spec fn strings_problem(extensions: Seq<(String, ExtensionValue)>, key: Seq<char>) -> Option<
    Seq<char>,
> {
    match lookup(extensions, key) {
        None => None,
        Some(ExtensionValue::Array(items)) => if all_strings(items@) {
            None
        } else {
            Some(key + " is not an array of strings"@)
        },
        Some(_) => Some(key + " is not an array"@),
    }
}

/// The message for the first required extension, in the order in which they are read,
/// whose value is not of its kind.
pub open spec fn first_invalid_extension(extensions: Seq<(String, ExtensionValue)>) -> Option<
    Seq<char>,
> {
    if string_problem(extensions, api_group_key()) is Some {
        string_problem(extensions, api_group_key())
    } else if string_problem(extensions, api_version_key()) is Some {
        string_problem(extensions, api_version_key())
    } else if string_problem(extensions, resource_ref_key()) is Some {
        string_problem(extensions, resource_ref_key())
    } else if strings_problem(extensions, include_tags_key()) is Some {
        strings_problem(extensions, include_tags_key())
    } else {
        string_problem(extensions, field_ref_key())
    }
}

/// The settings are the values of the required extensions.
pub open spec fn info_read(extensions: Seq<(String, ExtensionValue)>, info: OpenApiInfo) -> bool {
    &&& extension_string(extensions, api_group_key()) == Some(info.api_group@)
    &&& extension_string(extensions, api_version_key()) == Some(info.api_version@)
    &&& extension_string(extensions, resource_ref_key()) == Some(info.resource_ref@)
    &&& extension_strings(extensions, include_tags_key()) == Some(info.include_tags.deep_view())
    &&& extension_string(extensions, field_ref_key()) == Some(info.example_metadata_spec_field_ref@)
}

/// The error reading the settings gives: the first missing extension, else the first
/// extension whose value is not of its kind.
pub open spec fn info_error(extensions: Seq<(String, ExtensionValue)>, e: AppError) -> bool {
    match first_missing_extension(extensions) {
        Some(key) => e matches AppError::MissingRequiredExtension(k) && k@ == key,
        None => match first_invalid_extension(extensions) {
            Some(m) => e matches AppError::ConfigError(c) && c@ == m,
            None => false,
        },
    }
}

/// Reads the operator's settings from the extensions of the document's `info` object,
/// after checking that every required extension is there.
pub fn extract_openapi_info(extensions: &Vec<(String, ExtensionValue)>) -> (r: Result<
    OpenApiInfo,
    AppError,
>)
    ensures
        match r {
            Ok(info) => info_read(extensions@, info),
            Err(e) => info_error(extensions@, e),
        },
        r is Ok <==> info_is_complete(extensions@),
{
    validate_openapi_kubernetes_extensions_exists(extensions)?;
    proof {
        reveal_strlit("x-kubernetes-operator-api-group");
        reveal_strlit("x-kubernetes-operator-api-version");
        reveal_strlit("x-kubernetes-operator-resource-ref");
        reveal_strlit("x-kubernetes-operator-include-tags");
        reveal_strlit("x-kubernetes-operator-example-metadata-spec-field-ref");
    }
    let api_group = extract_extension(extensions, "x-kubernetes-operator-api-group")?;
    let api_version = extract_extension(extensions, "x-kubernetes-operator-api-version")?;
    let resource_ref = extract_extension(extensions, "x-kubernetes-operator-resource-ref")?;
    let include_tags = extract_extension_array(extensions, "x-kubernetes-operator-include-tags")?;
    let field_ref = extract_extension(
        extensions,
        "x-kubernetes-operator-example-metadata-spec-field-ref",
    )?;
    Ok(
        OpenApiInfo {
            api_group,
            api_version,
            resource_ref,
            include_tags,
            example_metadata_spec_field_ref: field_ref,
        },
    )
}

} // verus!
