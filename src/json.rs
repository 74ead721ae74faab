use vstd::prelude::*;
use crate::text::same_text;

verus! {

/// A JSON document, as plain values.
#[derive(Debug, PartialEq, Eq)]
pub enum Json {
    Null,
    Bool(bool),
    /// A number that is an integer within the range of `i64`.
    Int(i64),
    /// Any other number.
    OtherNumber,
    Text(String),
    List(Vec<Json>),
    /// The members of an object, each key once.
    Object(Vec<(String, Json)>),
}

#[verifier::external_type_specification]
#[verifier::external_body]
pub struct ExJsonValue(serde_json::Value);

/// What serde_json makes of a text: the document it holds, or `None` when it
/// is not JSON.
pub uninterp spec fn json_of_text(text: Seq<char>) -> Option<Json>;

/// Relies on the variants of serde_json::Value and on serde_json::Number::as_i64:
/// carries a parsed document over, variant by variant.
#[verifier::external_body]
fn document_of(v: serde_json::Value) -> Json {
    match v {
        serde_json::Value::Null => Json::Null,
        serde_json::Value::Bool(b) => Json::Bool(b),
        serde_json::Value::Number(n) => n.as_i64().map_or(Json::OtherNumber, Json::Int),
        serde_json::Value::String(s) => Json::Text(s),
        serde_json::Value::Array(a) => Json::List(a.into_iter().map(document_of).collect()),
        serde_json::Value::Object(o) => Json::Object(o.into_iter().map(|(k, x)| (k, document_of(x))).collect()),
    }
}

/// Relies on serde_json::from_str into serde_json::Value: parses the text as
/// one JSON document; the outcome depends on the text alone.
#[verifier::external_body]
pub(crate) fn parse_json(text: &str) -> (r: Option<Json>)
    ensures
        r == json_of_text(text@),
{
    serde_json::from_str::<serde_json::Value>(text).ok().map(document_of)
}

/// The value of the first member of `fields`, from position `i` on, whose key is `key`.
pub open spec fn member_from(fields: Seq<(String, Json)>, key: Seq<char>, i: int) -> Option<Json>
    decreases fields.len() - i,
{
    if i < 0 || i >= fields.len() {
        None
    } else if fields[i].0@ == key {
        Some(fields[i].1)
    } else {
        member_from(fields, key, i + 1)
    }
}

/// The member `key` of `doc`, when `doc` is an object that has one.
pub open spec fn member(doc: Json, key: Seq<char>) -> Option<Json> {
    match doc {
        Json::Object(fields) => member_from(fields@, key, 0),
        _ => None,
    }
}

/// Looks up the member `key` of an object.
pub fn member_of<'a>(doc: &'a Json, key: &str) -> (r: Option<&'a Json>)
    ensures
        match r {
            Some(v) => member(*doc, key@) == Some(*v),
            None => member(*doc, key@) is None,
        },
{
    match doc {
        Json::Object(fields) => {
            let mut i: usize = 0;
            while i < fields.len()
                invariant
                    *doc == Json::Object(*fields),
                    i <= fields@.len(),
                    member_from(fields@, key@, 0) == member_from(fields@, key@, i as int),
                decreases fields@.len() - i,
            {
                let entry = &fields[i];
                if same_text(&entry.0, key) {
                    return Some(&entry.1);
                }
                i = i + 1;
            }
            None
        },
        _ => None,
    }
}

} // verus!
