//! The decision engine: given one request document, decide whether the
//! request may proceed, by testing the metadata view designated for its
//! operation kind for the kind's sentinel annotation key.

use vstd::prelude::*;

use crate::operation::Operation;
use crate::query::annotation_keys_at;
use crate::query::lookup_annotation_keys;
use crate::query::lookup_operation_tag;
use crate::query::operation_tag_of;
use crate::query::parses_as_json;
use crate::query::request_text_of;
use crate::query::serialize_request;
use crate::query::view_of_keys;

verus! {

/// The outcome of one evaluation. Accept carries no payload at all — in
/// particular no mutated object: the policy never mutates the incoming
/// resource. Reject carries an HTTP-like status code and, as its message, the
/// serialized `request` sub-document of the envelope.
#[derive(Debug)]
pub enum Verdict {
    Accept,
    Reject { code: u16, message: String },
}

/// The ways one evaluation can fail. The host sees each of these as an
/// explicit error, never as an acceptance or a rejection.
#[derive(Debug, PartialEq, Eq)]
pub enum EvaluationError {
    /// The payload is not valid JSON, or the `operation` field is missing or
    /// not a string.
    MalformedInput,
    /// The `operation` field holds a value outside the closed set of accepted
    /// tags; carries the offending value.
    UnknownOperation { operation: String },
    /// A metadata lookup path could not be evaluated against the document.
    /// The engine's paths are fixed and statically valid, so `evaluate` never
    /// reports this; the variant completes the taxonomy of call-fatal
    /// failures the host may see.
    PathEvaluationFailure,
}

/// Whether one of the annotation keys reads as the given key.
pub open spec fn has_key(keys: Seq<String>, key: Seq<char>) -> bool {
    exists|j: int| 0 <= j < keys.len() && keys[j]@ == key
}

/// Whether an annotations mapping is present and contains the given key. An
/// absent mapping (the resource has no annotations, or the value at the
/// metadata path is not an object) never contains any key.
pub open spec fn sentinel_present(annotations: Option<Seq<String>>, key: Seq<char>) -> bool {
    match annotations {
        Some(keys) => has_key(keys, key),
        None => false,
    }
}

/// The metadata view an operation kind is judged against: the new object's
/// annotations for Create and Connect, the old object's for Update and
/// Delete.
pub open spec fn designated_view(
    kind: Operation,
    new_keys: Option<Seq<String>>,
    old_keys: Option<Seq<String>>,
) -> Option<Seq<String>> {
    if kind.uses_new_object() {
        new_keys
    } else {
        old_keys
    }
}

/// The decision as the contracts state it: the spec-level counterpart of a
/// Verdict.
pub enum Decision {
    Accepted,
    Rejected { code: int, message: Seq<char> },
}

/// The decision rendered for an operation kind from the annotation keys found
/// at the kind's metadata path: a rejection with code 418 echoing the
/// serialized request exactly when the kind's sentinel key is present, an
/// acceptance otherwise.
pub open spec fn spec_render(
    kind: Operation,
    annotations: Option<Seq<String>>,
    request_text: Seq<char>,
) -> Decision {
    if sentinel_present(annotations, kind.spec_annotation_key()) {
        Decision::Rejected { code: 418, message: request_text }
    } else {
        Decision::Accepted
    }
}

/// The decision rendered for an operation kind from the two metadata views of
/// a request: the kind's designated view decides, the other carries no
/// weight.
pub open spec fn spec_decision(
    kind: Operation,
    new_keys: Option<Seq<String>>,
    old_keys: Option<Seq<String>>,
    request_text: Seq<char>,
) -> Decision {
    spec_render(kind, designated_view(kind, new_keys, old_keys), request_text)
}

/// How an executable verdict realizes a spec-level decision.
pub open spec fn abstracts(v: Verdict, d: Decision) -> bool {
    match (v, d) {
        (Verdict::Accept, Decision::Accepted) => true,
        (
            Verdict::Reject { code, message },
            Decision::Rejected { code: expected_code, message: expected_message },
        ) => code == expected_code && message@ == expected_message,
        _ => false,
    }
}

/// Membership of a key among the annotation keys.
fn vec_has_key(keys: &Vec<String>, key: &String) -> (r: bool)
    ensures
        r == has_key(keys@, key@),
{
    let mut i: usize = 0;
    while i < keys.len()
        invariant
            i <= keys@.len(),
            forall|j: int| 0 <= j < i ==> keys@[j]@ != key@,
        decreases keys@.len() - i,
    {
        let k: &String = &keys[i];
        if *k == *key {
            return true;
        }
        i = i + 1;
    }
    false
}

/// The decision core on plain values: given the classified operation kind,
/// the annotation keys found at the kind's metadata path (None when no
/// annotations mapping is present there), and the serialized `request`
/// sub-document, render the verdict. The request is rejected with code 418
/// exactly when the kind's sentinel key is among the annotation keys.
pub fn render_verdict(kind: Operation, annotation_keys: &Option<Vec<String>>, request_text: String) -> (v: Verdict)
    ensures
        abstracts(v, spec_render(kind, view_of_keys(*annotation_keys), request_text@)),
{
    match annotation_keys {
        Some(keys) => {
            let key = String::from_str(kind.annotation_key());
            if vec_has_key(keys, &key) {
                Verdict::Reject { code: 418, message: request_text }
            } else {
                Verdict::Accept
            }
        },
        None => Verdict::Accept,
    }
}

/// The inputs on which a verdict is owed: the payload parses as JSON and the
/// value at `request.operation` is a string naming one of the four accepted
/// operation kinds.
pub open spec fn renders_verdict(bytes: Seq<u8>) -> bool {
    &&& parses_as_json(bytes)
    &&& operation_tag_of(bytes) matches Some(tag) && Operation::spec_classify(tag) is Some
}

/// The decision owed on a payload on which a verdict is owed: the one the
/// classified kind renders from the annotation keys at its metadata path and
/// the serialized `request` sub-document.
pub open spec fn spec_evaluate(bytes: Seq<u8>) -> Decision
    recommends
        renders_verdict(bytes),
{
    let tag = operation_tag_of(bytes)->Some_0;
    let kind = Operation::spec_classify(tag)->Some_0;
    spec_render(kind, annotation_keys_at(bytes, kind.spec_annotation_path()), request_text_of(bytes))
}

/// Evaluates one request payload to a verdict. A verdict is owed exactly
/// when the payload parses as JSON and holds a string at `request.operation`
/// naming one of the four accepted operation kinds; it then rejects with code
/// 418, echoing the serialized `request` sub-document, exactly when the
/// kind's designated metadata view carries the kind's sentinel annotation
/// key, and accepts otherwise. Every other input yields an error instead:
/// MalformedInput when the payload is not well-formed JSON or holds no string
/// operation tag, UnknownOperation when the tag lies outside the closed set.
pub fn evaluate(payload: &[u8]) -> (r: Result<Verdict, EvaluationError>)
    ensures
        r is Ok <==> renders_verdict(payload@),
        r matches Ok(v) ==> abstracts(v, spec_evaluate(payload@)),
        r matches Err(EvaluationError::MalformedInput) <==> (!parses_as_json(payload@)
            || operation_tag_of(payload@) is None),
        r matches Err(EvaluationError::UnknownOperation { operation }) ==> parses_as_json(payload@)
            && operation_tag_of(payload@) == Some(operation@) && Operation::spec_classify(
            operation@,
        ) is None,
        !(r matches Err(EvaluationError::PathEvaluationFailure)),
{
    let tag = match lookup_operation_tag(payload) {
        Some(tag) => tag,
        None => {
            return Err(EvaluationError::MalformedInput);
        },
    };
    let kind = match Operation::classify(&tag) {
        Ok(kind) => kind,
        Err(operation) => {
            return Err(EvaluationError::UnknownOperation { operation });
        },
    };
    let annotation_keys = lookup_annotation_keys(payload, kind.annotation_path());
    let request_text = serialize_request(payload);
    Ok(render_verdict(kind, &annotation_keys, request_text))
}

/// Law: for every operation kind, when the kind's designated metadata view
/// holds an annotations mapping that contains the kind's sentinel key, the
/// decision is a rejection, whatever the other view holds.
pub proof fn lemma_sentinel_key_rejects(
    kind: Operation,
    new_keys: Option<Seq<String>>,
    old_keys: Option<Seq<String>>,
    request_text: Seq<char>,
)
    requires
        designated_view(kind, new_keys, old_keys) matches Some(keys) && has_key(
            keys,
            kind.spec_annotation_key(),
        ),
    ensures
        spec_decision(kind, new_keys, old_keys, request_text) == (Decision::Rejected {
            code: 418,
            message: request_text,
        }),
{
}

/// Law: for every operation kind, when the kind's designated metadata view
/// holds no annotations mapping, or holds one without the kind's sentinel
/// key, the decision is an acceptance, whatever the other view holds.
pub proof fn lemma_no_sentinel_accepts(
    kind: Operation,
    new_keys: Option<Seq<String>>,
    old_keys: Option<Seq<String>>,
    request_text: Seq<char>,
)
    requires
        match designated_view(kind, new_keys, old_keys) {
            Some(keys) => !has_key(keys, kind.spec_annotation_key()),
            None => true,
        },
    ensures
        spec_decision(kind, new_keys, old_keys, request_text) == Decision::Accepted,
{
}

} // verus!
