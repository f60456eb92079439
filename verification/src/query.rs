//! The path-query capability the engine consumes: reading the operation tag,
//! an annotations mapping, and the serialized `request` sub-document out of a
//! request payload. Each reading parses the payload and evaluates one fixed
//! lookup path; every result is a function of the payload bytes alone, so
//! each stage's outcome has a name the contracts can speak of.

use vstd::prelude::*;

verus! {

/// Whether a byte sequence is UTF-8 text that is a well-formed JSON document
/// in the parser's eyes; a function of the bytes alone.
pub uninterp spec fn parses_as_json(bytes: Seq<u8>) -> bool;

/// The value at `request.operation` of the parsed document, when that value
/// is a string; a function of the bytes alone.
pub uninterp spec fn operation_tag_of(bytes: Seq<u8>) -> Option<Seq<char>>;

/// The keys of the mapping found at the given lookup path of the parsed
/// document, when the value there is an object, and nothing otherwise (a
/// missing or malformed metadata view reads as "no annotations mapping"); a
/// function of the bytes and the path alone.
pub uninterp spec fn annotation_keys_at(bytes: Seq<u8>, path: Seq<char>) -> Option<Seq<String>>;

/// The value at `request` of the parsed document, written back out as JSON
/// text; a function of the bytes alone.
pub uninterp spec fn request_text_of(bytes: Seq<u8>) -> Seq<char>;

/// The annotation keys as the contracts see them.
pub open spec fn view_of_keys(annotation_keys: Option<Vec<String>>) -> Option<Seq<String>> {
    match annotation_keys {
        Some(keys) => Some(keys@),
        None => None,
    }
}

/// Relies on str::from_utf8, jmespath::Variable::from_json,
/// jmespath::compile and Expression::search: parses the payload and reads the
/// string at `request.operation`. The fixed path always compiles, and field
/// descent never fails (a missing field reads as null), so the result is None
/// exactly when the payload is not well-formed JSON or the value at the path
/// is not a string.
#[verifier::external_body]
pub(crate) fn lookup_operation_tag(payload: &[u8]) -> (r: Option<String>)
    ensures
        match r {
            Some(tag) => parses_as_json(payload@) && operation_tag_of(payload@) == Some(tag@),
            None => !parses_as_json(payload@) || operation_tag_of(payload@) is None,
        },
{
    let text = std::str::from_utf8(payload).ok()?;
    let doc = jmespath::Variable::from_json(text).ok()?;
    let expr = jmespath::compile("request.operation").ok()?;
    let value = expr.search(&doc).ok()?;
    value.as_string().cloned()
}

/// Relies on str::from_utf8, jmespath::Variable::from_json,
/// jmespath::compile and Expression::search: parses the payload, evaluates
/// the given metadata lookup path, and reads the keys of the object found
/// there. The two accepted paths always compile, and field descent never
/// fails, so on well-formed JSON the result is exactly the keys at the path,
/// or None when the value there is not an object.
#[verifier::external_body]
pub(crate) fn lookup_annotation_keys(payload: &[u8], path: &str) -> (r: Option<Vec<String>>)
    requires
        path@ == "request.object.metadata.annotations"@ || path@
            == "request.oldObject.metadata.annotations"@,
    ensures
        parses_as_json(payload@) ==> view_of_keys(r) == annotation_keys_at(payload@, path@),
{
    let text = std::str::from_utf8(payload).ok()?;
    let doc = jmespath::Variable::from_json(text).ok()?;
    let expr = jmespath::compile(path).ok()?;
    let value = expr.search(&doc).ok()?;
    value.as_object().map(|mapping| mapping.keys().cloned().collect())
}

/// Relies on str::from_utf8, jmespath::Variable::from_json,
/// jmespath::compile, Expression::search and jmespath::Variable's Display
/// implementation (which writes the value as JSON text): parses the payload
/// and serializes the `request` sub-document. The fixed path always compiles
/// and field descent never fails, so on well-formed JSON the result is
/// exactly that text; on anything else the result is unspecified.
#[verifier::external_body]
pub(crate) fn serialize_request(payload: &[u8]) -> (r: String)
    ensures
        parses_as_json(payload@) ==> r@ == request_text_of(payload@),
{
    let found = std::str::from_utf8(payload)
        .ok()
        .and_then(|text| jmespath::Variable::from_json(text).ok())
        .and_then(|doc| jmespath::compile("request").ok()?.search(&doc).ok());
    found.map(|value| value.to_string()).unwrap_or_default()
}

} // verus!
