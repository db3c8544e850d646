//! Arguments given as one JSON document.

use vstd::prelude::*;
use vstd::string::*;
use crate::args::{pairs_map, pairs_of, ArgValue, ArgValueView, ArgumentSet, Pair};
use crate::error::{format_failure, result_view, Error, ErrorKind, ErrorView};
use serde_json::Error as DecodeError;

verus! {

/// The error of the JSON decoder.
#[verifier::external_type_specification]
#[verifier::external_body]
pub struct ExDecodeError(DecodeError);

/// What a JSON document is at its top level. Only an object is looked
/// into: its members, with a string member as text and any other member
/// as the JSON value it is.
#[derive(Clone, Debug, PartialEq)]
pub enum JsonDocument {
    Null,
    Bool,
    Number,
    String,
    Array,
    Object(Vec<(String, ArgValue)>),
}

/// Mathematical content of a [`JsonDocument`].
pub enum JsonDocumentView {
    Null,
    Bool,
    Number,
    String,
    Array,
    Object(Seq<Pair>),
}

impl View for JsonDocument {
    type V = JsonDocumentView;

    open spec fn view(&self) -> JsonDocumentView {
        match self {
            JsonDocument::Null => JsonDocumentView::Null,
            JsonDocument::Bool => JsonDocumentView::Bool,
            JsonDocument::Number => JsonDocumentView::Number,
            JsonDocument::String => JsonDocumentView::String,
            JsonDocument::Array => JsonDocumentView::Array,
            JsonDocument::Object(members) => JsonDocumentView::Object(pairs_of(members@)),
        }
    }
}

/// What the decoder makes of a text: the document that the text decodes
/// to, or nothing if the decoder refuses the text.
pub uninterp spec fn json_document(text: Seq<char>) -> Option<JsonDocumentView>;

/// `serde_json::from_str` to a `serde_json::Value`, then the value's top
/// level: whether the text decodes, and to what, depends on the text alone
/// and is named [`json_document`]. Of an object the members are handed
/// on, in the order in which the decoded map hands them out, a string
/// member as its text and any other member as the value it is.
#[verifier::external_body]
fn decode_document(text: &str) -> (r: Result<JsonDocument, DecodeError>)
    ensures
        r matches Ok(doc) ==> json_document(text@) == Some(doc@),
        r is Err ==> json_document(text@) is None,
{
    Ok(match serde_json::from_str::<serde_json::Value>(text)? {
        serde_json::Value::Null => JsonDocument::Null,
        serde_json::Value::Bool(_) => JsonDocument::Bool,
        serde_json::Value::Number(_) => JsonDocument::Number,
        serde_json::Value::String(_) => JsonDocument::String,
        serde_json::Value::Array(_) => JsonDocument::Array,
        serde_json::Value::Object(m) => JsonDocument::Object(m.into_iter().map(|(k, v)| match v {
            serde_json::Value::String(s) => (k, ArgValue::Text(s)),
            other => (k, ArgValue::Json(other)),
        }).collect()),
    })
}

/// `serde_json::Error`'s `Display`: the decoder's description of what it
/// met, and where.
#[verifier::external_body]
fn decode_failure_text(error: &DecodeError) -> (r: String) {
    error.to_string()
}

/// How a document that is no object is called in a message.
pub open spec fn kind_name(doc: JsonDocumentView) -> Seq<char> {
    match doc {
        JsonDocumentView::Null => "null"@,
        JsonDocumentView::Bool => "a boolean"@,
        JsonDocumentView::Number => "a number"@,
        JsonDocumentView::String => "a string"@,
        JsonDocumentView::Array => "an array"@,
        JsonDocumentView::Object(_) => "an object"@,
    }
}

/// What is said of a document that is no object.
pub open spec fn not_an_object_message(doc: JsonDocumentView) -> Seq<char> {
    "JSON arguments must be an object, found "@ + kind_name(doc)
}

/// What a decoded document resolves to: an object gives the mapping of
/// its members, anything else a format error.
pub open spec fn document_arguments(doc: JsonDocumentView) -> Result<
    Map<Seq<char>, ArgValueView>,
    ErrorView,
> {
    match doc {
        JsonDocumentView::Object(members) => Ok(pairs_map(members)),
        _ => Err(format_failure(not_an_object_message(doc))),
    }
}

/// Turns a decoded document into an argument set.
///
/// The document has to be an object: its keys become parameter names and
/// its values parameter values. Any other document fails with a format
/// error.
pub fn arguments_from_document(doc: JsonDocument) -> (r: Result<ArgumentSet, Error>)
    ensures
        r is Ok <==> doc@ is Object,
        result_view(r) == document_arguments(doc@),
{
    let found = match doc {
        JsonDocument::Object(members) => {
            return Ok(ArgumentSet::from_entries(members));
        },
        JsonDocument::Null => "null",
        JsonDocument::Bool => "a boolean",
        JsonDocument::Number => "a number",
        JsonDocument::String => "a string",
        JsonDocument::Array => "an array",
    };
    let mut msg = "JSON arguments must be an object, found ".to_owned();
    msg.append(found);
    Err(Error::Format(msg))
}

/// Resolves the arguments of a tool call from the text of one JSON
/// document.
///
/// A text that is JSON resolves as [`arguments_from_document`] says. A
/// text that is not JSON fails with a format error whose message is
/// `Invalid JSON: ` and then the decoder's description of what it met.
pub fn parse_json_arguments(text: &str) -> (r: Result<ArgumentSet, Error>)
    ensures
        r is Ok <==> json_document(text@) matches Some(JsonDocumentView::Object(_)),
        match json_document(text@) {
            Some(doc) => result_view(r) == document_arguments(doc),
            None => r matches Err(e) && e@.kind == ErrorKind::Format && "Invalid JSON: "@.is_prefix_of(
                e@.detail,
            ),
        },
{
    match decode_document(text) {
        Ok(doc) => arguments_from_document(doc),
        Err(e) => {
            let mut msg = "Invalid JSON: ".to_owned();
            let detail = decode_failure_text(&e);
            msg.append(detail.as_str());
            assert("Invalid JSON: "@.is_prefix_of(msg@)) by {
                assert(msg@.subrange(0, "Invalid JSON: "@.len() as int) == "Invalid JSON: "@);
            }
            Err(Error::Format(msg))
        },
    }
}

} // verus!
