use vstd::prelude::*;

verus! {

/// A value inside the per-purpose consent map, reduced to what the policy
/// inspects: a string status token, or anything else.
#[derive(Debug)]
pub enum PurposeValue {
    Str(String),
    Other,
}

/// A top-level JSON field value, reduced to the shapes the decoder and the
/// policy inspect: a boolean, a string, one level of nested object, or
/// anything else (numbers, arrays, null, deeper nesting), which plays no
/// role in the decision.
#[derive(Debug)]
pub enum FieldValue {
    Bool(bool),
    Str(String),
    Obj(Vec<(String, PurposeValue)>),
    Other,
}

pub uninterp spec fn url_decoded(s: Seq<char>) -> Option<Seq<char>>;

pub open spec fn opt_string_view(r: Option<String>) -> Option<Seq<char>> {
    match r {
        Some(s) => Some(s@),
        None => None,
    }
}

/// Relies on urlencoding::decode: percent-decoding depends on the input
/// characters alone, and fails exactly when the decoded bytes are not valid
/// UTF-8.
#[verifier::external_body]
pub(crate) fn url_decode(s: &String) -> (r: Option<String>)
    ensures
        opt_string_view(r) == url_decoded(s@),
{
    urlencoding::decode(s.as_str()).ok().map(|c| c.into_owned())
}

pub uninterp spec fn json_fields_of(s: Seq<char>) -> Option<Vec<(String, FieldValue)>>;

/// Relies on serde_json::from_str and serde_json::Value: parsing depends on
/// the input characters alone. Hands back the top-level object's fields,
/// each value reduced to a FieldValue, or nothing when the input is not
/// valid JSON or its top level is not an object.
#[verifier::external_body]
pub(crate) fn parse_json_fields(s: &String) -> (r: Option<Vec<(String, FieldValue)>>)
    ensures
        r == json_fields_of(s@),
{
    let m = match serde_json::from_str::<serde_json::Value>(s.as_str()) {
        Ok(serde_json::Value::Object(m)) => m,
        _ => return None,
    };
    Some(m.into_iter().map(|(k, v)| (k, match v {
        serde_json::Value::Bool(b) => FieldValue::Bool(b),
        serde_json::Value::String(t) => FieldValue::Str(t),
        serde_json::Value::Object(g) => FieldValue::Obj(g.into_iter().map(|(k2, v2)| (k2, match v2 {
            serde_json::Value::String(t2) => PurposeValue::Str(t2),
            _ => PurposeValue::Other,
        })).collect()),
        _ => FieldValue::Other,
    })).collect())
}

} // verus!
