//! Decoding of the completion response.  The remote body is parsed by
//! serde_json behind trusted wrappers; everything a parsed value holds is
//! described by the spec-level `JShape` tree, and the message extraction is
//! verified against that description.

use vstd::prelude::*;

use crate::errors::Failure;
use crate::strutil::spec_trim;
use crate::strutil::trim_str;

verus! {

/// The spec-level shape of a JSON value, reduced to what the tool consumes:
/// strings, arrays and objects; every other kind of value is `Other`.
pub ghost enum JShape {
    Other,
    Text(Seq<char>),
    Arr(Seq<JShape>),
    Obj(Seq<(Seq<char>, JShape)>),
}

/// The member of an object for a key, when there is one.
pub open spec fn j_lookup(ps: Seq<(Seq<char>, JShape)>, k: Seq<char>) -> Option<JShape>
    decreases ps.len(),
{
    if ps.len() == 0 {
        None
    } else if ps[0].0 == k {
        Some(ps[0].1)
    } else {
        j_lookup(ps.drop_first(), k)
    }
}

/// What `serde_json::from_str::<Value>` yields on a text: `None` when the
/// text is not JSON, else the shape of the parsed value.
pub uninterp spec fn json_shape(s: Seq<char>) -> Option<JShape>;

/// The shape that a parsed `serde_json::Value` holds.
pub uninterp spec fn shape_of(v: serde_json::Value) -> JShape;

#[verifier::external_type_specification]
#[verifier::external_body]
pub struct ExValue(serde_json::Value);

/// Relies on `serde_json::from_str::<Value>`: parses the text as JSON and
/// fails exactly on text that is not JSON; the parse depends on the text
/// alone.
#[verifier::external_body]
pub(crate) fn parse_value(s: &str) -> (r: Option<serde_json::Value>)
    ensures
        match r {
            Some(v) => json_shape(s@) == Some(shape_of(v)),
            None => json_shape(s@) is None,
        },
{
    serde_json::from_str::<serde_json::Value>(s).ok()
}

/// Relies on `serde_json::Value::get` with a string index: the member for
/// that key when the value is an object holding it, `None` otherwise.
#[verifier::external_body]
fn value_get_key<'a>(v: &'a serde_json::Value, key: &str) -> (r: Option<&'a serde_json::Value>)
    ensures
        match r {
            Some(w) => match shape_of(*v) {
                JShape::Obj(ps) => j_lookup(ps, key@) == Some(shape_of(*w)),
                _ => false,
            },
            None => match shape_of(*v) {
                JShape::Obj(ps) => j_lookup(ps, key@) is None,
                _ => true,
            },
        },
{
    v.get(key)
}

/// Relies on `serde_json::Value::get` with a `usize` index: the element at
/// that position when the value is an array long enough, `None` otherwise.
#[verifier::external_body]
fn value_get_index<'a>(v: &'a serde_json::Value, i: usize) -> (r: Option<&'a serde_json::Value>)
    ensures
        match r {
            Some(w) => match shape_of(*v) {
                JShape::Arr(es) => i < es.len() && es[i as int] == shape_of(*w),
                _ => false,
            },
            None => match shape_of(*v) {
                JShape::Arr(es) => i >= es.len(),
                _ => true,
            },
        },
{
    v.get(i)
}

/// Relies on `serde_json::Value::as_str`: the borrowed text when the value
/// is a JSON string, `None` otherwise.
#[verifier::external_body]
fn value_as_str<'a>(v: &'a serde_json::Value) -> (r: Option<&'a str>)
    ensures
        match r {
            Some(s) => shape_of(*v) == JShape::Text(s@),
            None => !(shape_of(*v) is Text),
        },
{
    v.as_str()
}

/// The message a response shape carries: the first element of its `choices`
/// array must hold a string `text` member, which is trimmed; any other
/// shape carries none.
pub open spec fn spec_extract(sh: JShape) -> Option<Seq<char>> {
    match sh {
        JShape::Obj(ps) => match j_lookup(ps, "choices"@) {
            Some(ch) => match ch {
                JShape::Arr(es) => if es.len() > 0 {
                    match es[0] {
                        JShape::Obj(inner) => match j_lookup(inner, "text"@) {
                            Some(t) => match t {
                                JShape::Text(s) => Some(spec_trim(s)),
                                _ => None,
                            },
                            None => None,
                        },
                        _ => None,
                    }
                } else {
                    None
                },
                _ => None,
            },
            None => None,
        },
        _ => None,
    }
}

/// Extracts the commit message from a decoded response: `choices[0].text`
/// trimmed of surrounding whitespace, or `ResponseMalformed` when the
/// response does not have that shape.
pub fn extract_message(v: &serde_json::Value) -> (r: Result<String, Failure>)
    ensures
        match spec_extract(shape_of(*v)) {
            Some(t) => r matches Ok(m) && m@ == t,
            None => r matches Err(f) && f is ResponseMalformed,
        },
{
    let choices = match value_get_key(v, "choices") {
        Some(c) => c,
        None => {
            return Err(Failure::ResponseMalformed);
        },
    };
    let first = match value_get_index(choices, 0) {
        Some(e) => e,
        None => {
            return Err(Failure::ResponseMalformed);
        },
    };
    let text = match value_get_key(first, "text") {
        Some(t) => t,
        None => {
            return Err(Failure::ResponseMalformed);
        },
    };
    match value_as_str(text) {
        Some(s) => Ok(trim_str(s)),
        None => Err(Failure::ResponseMalformed),
    }
}

} // verus!
