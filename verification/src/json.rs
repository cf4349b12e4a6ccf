use vstd::prelude::*;

verus! {

/// A JSON document as a plain tree of library values: what a response body
/// holds once the text has been parsed.
///
/// An object keeps its members as key/value pairs, each key held once, in
/// the order the parser hands them out. A number keeps only its decimal
/// rendering, since no field of the envelope is numeric.
#[derive(Debug)]
pub enum JsonValue {
    Null,
    Bool(bool),
    Number(String),
    String(String),
    Array(Vec<JsonValue>),
    Object(Vec<(String, JsonValue)>),
}

/// The member of `fields` named `key`, looked for from position `i` on:
/// the value of the first pair that carries the key.
pub open spec fn spec_lookup_from(
    fields: Seq<(String, JsonValue)>,
    key: Seq<char>,
    i: int,
) -> Option<JsonValue>
    decreases fields.len() - i,
{
    if i < 0 || i >= fields.len() {
        None
    } else if fields[i].0@ == key {
        Some(fields[i].1)
    } else {
        spec_lookup_from(fields, key, i + 1)
    }
}

/// The member of an object named `key`, or nothing when no pair carries it.
pub open spec fn spec_lookup(fields: Seq<(String, JsonValue)>, key: Seq<char>) -> Option<
    JsonValue,
> {
    spec_lookup_from(fields, key, 0)
}

/// Find the member of an object named `key`.
pub fn lookup<'a>(fields: &'a Vec<(String, JsonValue)>, key: &str) -> (r: Option<&'a JsonValue>)
    ensures
        match r {
            Some(v) => spec_lookup(fields@, key@) == Some(*v),
            None => spec_lookup(fields@, key@) is None,
        },
{
    let key_string: String = key.to_owned();
    let mut i: usize = 0;
    while i < fields.len()
        invariant
            0 <= i <= fields@.len(),
            key_string@ == key@,
            spec_lookup(fields@, key@) == spec_lookup_from(fields@, key@, i as int),
        decreases fields@.len() - i,
    {
        let pair = &fields[i];
        if pair.0 == key_string {
            return Some(&pair.1);
        }
        i = i + 1;
    }
    None
}

/// What parsing a body yields: the document as a `JsonValue` when the text
/// is valid JSON, and the parser's diagnostic otherwise. Both are functions
/// of the text alone.
pub uninterp spec fn parsed_json(s: Seq<char>) -> Result<JsonValue, Seq<char>>;

/// Relies on `serde_json::from_str` for `serde_json::Value`: whether the
/// text parses, and what document it parses to, depend on the text alone;
/// `json_image` rewrites the parsed document as a `JsonValue`.
#[verifier::external_body]
pub(crate) fn parse_json(body: &str) -> (r: Result<JsonValue, String>)
    ensures
        r is Ok <==> parsed_json(body@) is Ok,
        r is Ok ==> r->Ok_0 == parsed_json(body@)->Ok_0,
        r is Err ==> r->Err_0@ == parsed_json(body@)->Err_0,
{
    match serde_json::from_str::<serde_json::Value>(body) {
        Ok(v) => Ok(json_image(v)),
        Err(e) => Err(e.to_string()),
    }
}

/// The parsed document type of the JSON crate, declared so that a value of
/// it can be handed to the conversion below; verified code reads nothing
/// from it.
#[verifier::external_type_specification]
#[verifier::external_body]
pub struct ExSerdeJsonValue(serde_json::Value);

/// Relies on the shape of `serde_json::Value`: each variant is rewritten to
/// the matching `JsonValue` variant, object members in the order the parsed
/// map yields them, numbers by their decimal rendering.
#[verifier::external_body]
fn json_image(v: serde_json::Value) -> (r: JsonValue) {
    match v {
        serde_json::Value::Null => JsonValue::Null,
        serde_json::Value::Bool(b) => JsonValue::Bool(b),
        serde_json::Value::Number(n) => JsonValue::Number(n.to_string()),
        serde_json::Value::String(s) => JsonValue::String(s),
        serde_json::Value::Array(a) => JsonValue::Array(a.into_iter().map(json_image).collect()),
        serde_json::Value::Object(m) => JsonValue::Object(
            m.into_iter().map(|(k, w)| (k, json_image(w))).collect(),
        ),
    }
}

} // verus!
