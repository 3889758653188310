//! Reading an OpenAPI document from its text: the parts of it that the generator uses,
//! as plain values.

use vstd::prelude::*;

use openapiv3::{ReferenceOr, SchemaKind, Type};

use crate::commands::generate::{
    generate_resource_from_map, ExampleEntry, ExampleValue, ResourceDraft,
};
use crate::errors::AppError;
use crate::inflect::singular;
use crate::openapi::{
    extract_openapi_info, info_error, info_read, ExtensionValue, ObjectSchema, OpenApiInfo, PathOperation,
    PathItem, PropertyKind, ComponentSchema,
};
use crate::templates::Resource;
use crate::text::{capitalized, lowercase};

verus! {

/// The parts of an OpenAPI document that the generator uses.
#[derive(Debug)]
pub struct OpenApiDocument {
    /// The extensions of the `info` object, in document order.
    pub info_extensions: Vec<(String, ExtensionValue)>,
    /// The schemas of the components, in document order; none where the document has no
    /// components.
    pub schemas: Option<Vec<(String, ComponentSchema)>>,
    /// The path items, in document order; `None` for a reference.
    pub paths: Vec<Option<PathItem>>,
    /// The examples of the components, in document order, each field value as its JSON
    /// text; none where the document has no components.
    pub examples: Option<Vec<(String, ExampleValue<String>)>>,
}

/// What `serde_yaml::from_str` makes of a text as an `openapiv3::OpenAPI` document, given
/// by its parts; the parser's message where the text is not such a document.
pub uninterp spec fn parsed_yaml_document(text: Seq<char>) -> Result<OpenApiDocument, Seq<char>>;

/// What `serde_json::from_str` makes of a text as an `openapiv3::OpenAPI` document, given
/// by its parts; the parser's message where the text is not such a document.
pub uninterp spec fn parsed_json_document(text: Seq<char>) -> Result<OpenApiDocument, Seq<char>>;

/// Parses the text of an OpenAPI document with `serde_yaml::from_str` into
/// `openapiv3::OpenAPI` and hands its parts over one for one, or the parser's message.
/// The contract names the result `parsed_yaml_document` of the text.
#[verifier::external_body]
fn parse_yaml_document(text: &str) -> (r: Result<OpenApiDocument, String>)
    ensures
        match r {
            Ok(d) => parsed_yaml_document(text@) == Ok::<OpenApiDocument, Seq<char>>(d),
            Err(m) => parsed_yaml_document(text@) == Err::<OpenApiDocument, Seq<char>>(m@),
        },
{
    match serde_yaml::from_str::<openapiv3::OpenAPI>(text) {
        Ok(doc) => Ok(document_of(&doc)),
        Err(e) => Err(e.to_string()),
    }
}

/// Parses the text of an OpenAPI document with `serde_json::from_str` into
/// `openapiv3::OpenAPI` and hands its parts over one for one, or the parser's message.
/// The contract names the result `parsed_json_document` of the text.
#[verifier::external_body]
fn parse_json_document(text: &str) -> (r: Result<OpenApiDocument, String>)
    ensures
        match r {
            Ok(d) => parsed_json_document(text@) == Ok::<OpenApiDocument, Seq<char>>(d),
            Err(m) => parsed_json_document(text@) == Err::<OpenApiDocument, Seq<char>>(m@),
        },
{
    match serde_json::from_str::<openapiv3::OpenAPI>(text) {
        Ok(doc) => Ok(document_of(&doc)),
        Err(e) => Err(e.to_string()),
    }
}

/// The parts of a parsed document.
#[verifier::external_body]
fn document_of(doc: &openapiv3::OpenAPI) -> OpenApiDocument {
    OpenApiDocument {
        info_extensions: info_extensions_of(doc),
        schemas: schemas_of(doc),
        paths: paths_of(doc),
        examples: examples_of(doc),
    }
}

/// The extensions of a document's `info` object, in order.
#[verifier::external_body]
fn info_extensions_of(doc: &openapiv3::OpenAPI) -> Vec<(String, ExtensionValue)> {
    doc.info.extensions.iter().map(|(k, v)| (k.clone(), extension_value(v))).collect()
}

/// An extension's value: a JSON string as a string, an array as its elements that are
/// strings, anything else as `Other`.
#[verifier::external_body]
fn extension_value(v: &serde_json::Value) -> ExtensionValue {
    match v {
        serde_json::Value::String(s) => ExtensionValue::String(s.clone()),
        serde_json::Value::Array(a) => ExtensionValue::Array(a.iter().map(|i| i.as_str().map(String::from)).collect()),
        _ => ExtensionValue::Other,
    }
}

/// The schemas of a document's components, in order; none without components.
#[verifier::external_body]
fn schemas_of(doc: &openapiv3::OpenAPI) -> Option<Vec<(String, ComponentSchema)>> {
    Some(doc.components.as_ref()?.schemas.iter().map(|(n, s)| (n.clone(), component_schema(s))).collect())
}

/// A schema of the components: a reference as `Reference`, an object schema with its
/// properties and its required ones, anything else as `Other`.
#[verifier::external_body]
fn component_schema(s: &openapiv3::ReferenceOr<openapiv3::Schema>) -> ComponentSchema {
    match s {
        ReferenceOr::Reference { .. } => ComponentSchema::Reference,
        ReferenceOr::Item(i) => match &i.schema_kind {
            SchemaKind::Type(Type::Object(o)) => ComponentSchema::Object(ObjectSchema {
                properties: o.properties.iter().map(|(k, p)| (k.clone(), property_kind(p))).collect(),
                required: o.required.clone(),
            }),
            _ => ComponentSchema::Other,
        },
    }
}

/// The kind of a property's schema: a reference as `Reference`, else the kind of its type.
#[verifier::external_body]
fn property_kind(p: &openapiv3::ReferenceOr<Box<openapiv3::Schema>>) -> PropertyKind {
    match p {
        ReferenceOr::Reference { .. } => PropertyKind::Reference,
        ReferenceOr::Item(i) => type_kind(&i.schema_kind),
    }
}

/// The kind of a schema's type, `Other` for a schema that is not of one type.
#[verifier::external_body]
fn type_kind(k: &openapiv3::SchemaKind) -> PropertyKind {
    match k {
        SchemaKind::Type(Type::String(_)) => PropertyKind::String,
        SchemaKind::Type(Type::Integer(_)) => PropertyKind::Integer,
        SchemaKind::Type(Type::Number(_)) => PropertyKind::Number,
        SchemaKind::Type(Type::Boolean(_)) => PropertyKind::Boolean,
        SchemaKind::Type(Type::Array(_)) => PropertyKind::Array,
        SchemaKind::Type(Type::Object(_)) => PropertyKind::Object,
        _ => PropertyKind::Other,
    }
}

/// The path items of a document, a reference as `None`.
#[verifier::external_body]
fn paths_of(doc: &openapiv3::OpenAPI) -> Vec<Option<PathItem>> {
    doc.paths.paths.iter().map(|(_, item)| match item {
        ReferenceOr::Item(i) => Some(PathItem {
            get: operation_of(&i.get),
            post: operation_of(&i.post),
            delete: operation_of(&i.delete),
            put: operation_of(&i.put),
        }),
        ReferenceOr::Reference { .. } => None,
    }).collect()
}

/// An operation's tags, identifier and summary.
#[verifier::external_body]
fn operation_of(op: &Option<openapiv3::Operation>) -> Option<PathOperation> {
    op.as_ref().map(|o| PathOperation {
        tags: o.tags.clone(),
        operation_id: o.operation_id.clone(),
        summary: o.summary.clone(),
    })
}

/// The examples of a document's components, in order, a reference as `Reference`; none
/// without components.
#[verifier::external_body]
fn examples_of(doc: &openapiv3::OpenAPI) -> Option<Vec<(String, ExampleValue<String>)>> {
    Some(doc.components.as_ref()?.examples.iter().map(|(n, e)| (n.clone(), match e {
        ReferenceOr::Item(item) => example_value(&item.value),
        ReferenceOr::Reference { .. } => ExampleValue::Reference,
    })).collect())
}

/// An example's value: an array as its elements that are objects, an object as its
/// fields, anything else as `Other`.
#[verifier::external_body]
fn example_value(v: &Option<serde_json::Value>) -> ExampleValue<String> {
    match v {
        Some(serde_json::Value::Array(a)) => ExampleValue::Array(a.iter().map(example_object).collect()),
        Some(v) => example_object(v).map_or(ExampleValue::Other, ExampleValue::Object),
        None => ExampleValue::Other,
    }
}

/// The fields of a JSON object, each with its text where it is a string and its JSON
/// text; none for another value.
#[verifier::external_body]
fn example_object(v: &serde_json::Value) -> Option<Vec<ExampleEntry<String>>> {
    Some(v.as_object()?.iter().map(|(k, f)| ExampleEntry {
        key: k.clone(),
        text: f.as_str().map(String::from),
        value: f.to_string(),
    }).collect())
}

/// Whether a specification file is read as JSON: its path ends with `.json`.
pub open spec fn is_json_path(path: Seq<char>) -> bool {
    path.len() >= 5 && path.subrange(path.len() - 5, path.len() as int) == ".json"@
}

/// Tests whether a specification file is read as JSON.
pub fn json_path(path: &str) -> (r: bool)
    ensures
        r == is_json_path(path@),
{
    proof {
        reveal_strlit(".json");
    }
    let n = path.unicode_len();
    if n < 5 {
        return false;
    }
    let tail = crate::text::substring(path, n - 5, n);
    crate::text::str_equal(tail.as_str(), ".json")
}

/// What a specification file's text parses to: as JSON where its path ends with `.json`,
/// else as YAML.
pub open spec fn parsed_spec_file(path: Seq<char>, text: Seq<char>) -> Result<OpenApiDocument, Seq<char>> {
    if is_json_path(path) {
        parsed_json_document(text)
    } else {
        parsed_yaml_document(text)
    }
}

/// The error for a specification file that does not parse, with the parser's message: a
/// JSON error for a JSON file, a YAML error for another.
pub open spec fn parse_error(path: Seq<char>, message: Seq<char>, e: AppError) -> bool {
    if is_json_path(path) {
        e matches AppError::JsonError(m) && m@ == message
    } else {
        e matches AppError::YamlError(m) && m@ == message
    }
}

/// Reads an OpenAPI document from the text of the file at `file_path`: as JSON where the
/// path ends with `.json`, else as YAML; the parser's error where the text is not one.
pub fn read_openapi_spec(file_path: &str, text: &str) -> (r: Result<OpenApiDocument, AppError>)
    ensures
        match parsed_spec_file(file_path@, text@) {
            Ok(d) => r == Ok::<OpenApiDocument, AppError>(d),
            Err(m) => r matches Err(e) && parse_error(file_path@, m, e),
        },
{
    if json_path(file_path) {
        match parse_json_document(text) {
            Ok(d) => Ok(d),
            Err(m) => Err(AppError::JsonError(m)),
        }
    } else {
        match parse_yaml_document(text) {
            Ok(d) => Ok(d),
            Err(m) => Err(AppError::YamlError(m)),
        }
    }
}

/// The operator's settings read from the text of the specification file at `file_path`:
/// the error of reading the document, or what the extensions of its `info` object give.
pub fn info_from_text(file_path: &str, text: &str) -> (r: Result<OpenApiInfo, AppError>)
    ensures
        match parsed_spec_file(file_path@, text@) {
            Err(m) => r matches Err(e) && parse_error(file_path@, m, e),
            Ok(doc) => match r {
                Ok(info) => info_read(doc.info_extensions@, info),
                Err(e) => info_error(doc.info_extensions@, e),
            },
        },
{
    let doc = read_openapi_spec(file_path, text)?;
    extract_openapi_info(&doc.info_extensions)
}

/// The key and JSON text of each field.
pub open spec fn field_texts(entries: Seq<ExampleEntry<String>>) -> Seq<(Seq<char>, Seq<char>)> {
    Seq::new(entries.len(), |i: int| (entries[i].key@, entries[i].value@))
}

/// What `serde_yaml::to_string` writes for the JSON object of the given fields, each given
/// by its key and JSON text read with `serde_json::from_str`; none where a text does not
/// parse or the writer fails.
pub uninterp spec fn fields_yaml_text(fields: Seq<(Seq<char>, Seq<char>)>) -> Option<Seq<char>>;

/// Writes the fields of an example object as YAML: parses each field's JSON text with
/// `serde_json::from_str` and writes the object with `serde_yaml::to_string`. The
/// contract names the result `fields_yaml_text` of the fields.
#[verifier::external_body]
pub(crate) fn fields_yaml(entries: &Vec<ExampleEntry<String>>) -> (r: Option<String>)
    ensures
        r.deep_view() == fields_yaml_text(field_texts(entries@)),
{
    let map: serde_json::Map<String, serde_json::Value> = entries.iter().map(|e| {
        Some((e.key.clone(), serde_json::from_str(&e.value).ok()?))
    }).collect::<Option<_>>()?;
    serde_yaml::to_string(&serde_json::Value::Object(map)).ok()
}

/// The YAML of an example object's fields, `{}` where they cannot be written.
pub open spec fn example_yaml(entries: Seq<ExampleEntry<String>>) -> Seq<char> {
    match fields_yaml_text(field_texts(entries)) {
        Some(t) => t,
        None => "{}"@,
    }
}

/// The resources of an example named `name`: one per draft, its kind the singular of the
/// capitalized name and its spec the YAML of the draft's fields, `{}` where they cannot be
/// written.
pub fn example_resources(
    name: &str,
    drafts: &Vec<ResourceDraft<String>>,
    operator_group: &str,
    operator_version: &str,
) -> (r: Vec<Resource>)
    ensures
        r@.len() == drafts@.len(),
        forall|i: int|
            0 <= i < r@.len() ==> {
                let res = #[trigger] r@[i];
                &&& res.api_group@ == operator_group@
                &&& res.api_version@ == operator_version@
                &&& res.kind@ == singular(capitalized(name@))
                &&& res.metadata.name@ == "example-"@ + lowercase(drafts@[i].metadata_name@)
                &&& res.spec@ == crate::commands::generate::indented_yaml(
                    example_yaml(drafts@[i].entries@),
                )
            },
{
    let mut out: Vec<Resource> = Vec::new();
    let mut i: usize = 0;
    while i < drafts.len()
        invariant
            i <= drafts@.len(),
            out@.len() == i,
            forall|k: int|
                0 <= k < i ==> {
                    let res = #[trigger] out@[k];
                    &&& res.api_group@ == operator_group@
                    &&& res.api_version@ == operator_version@
                    &&& res.kind@ == singular(capitalized(name@))
                    &&& res.metadata.name@ == "example-"@ + lowercase(drafts@[k].metadata_name@)
                    &&& res.spec@ == crate::commands::generate::indented_yaml(
                        example_yaml(drafts@[k].entries@),
                    )
                },
        decreases drafts.len() - i,
    {
        let yaml = match fields_yaml(&drafts[i].entries) {
            Some(t) => t,
            None => "{}".to_owned(),
        };
        proof {
            reveal_strlit("{}");
        }
        let res = generate_resource_from_map(
            name,
            drafts[i].metadata_name.as_str(),
            yaml.as_str(),
            operator_group,
            operator_version,
        );
        out.push(res);
        i = i + 1;
    }
    out
}

} // verus!
