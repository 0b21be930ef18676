//! A JSON document as the library reads and writes it, with trusted bridges
//! to serde_json for parsing and rendering text.
//!
//! Every decision about a document's shape — which fields a manifest needs,
//! what a registry response must look like — is made in verified code over
//! [`JsonValue`]. Only the translation between text and values is trusted.

use vstd::prelude::*;
use crate::text::str_eq;

verus! {

/// A parsed JSON document.
///
/// Numbers are kept only when they are unsigned integers, the sole numeric
/// form the registry formats use; any other number parses to
/// [`JsonValue::OtherNumber`], which no decoder accepts and no encoder
/// produces.
#[derive(Debug, PartialEq)]
pub enum JsonValue {
    Null,
    Bool(bool),
    UInt(u64),
    OtherNumber,
    Str(String),
    Arr(Vec<JsonValue>),
    Obj(Vec<(String, JsonValue)>),
}

#[verifier::external_type_specification]
#[verifier::external_body]
pub struct ExSerdeValue(serde_json::Value);

/// What `serde_json` parses the given text into, translated to [`JsonValue`];
/// `None` when the text is not valid JSON. Parsing depends on the text alone.
pub uninterp spec fn json_of(text: Seq<char>) -> Option<JsonValue>;

/// The text `serde_json` renders the given value as. Rendering depends on
/// the value alone.
pub uninterp spec fn json_text_of(v: JsonValue) -> Seq<char>;

/// Relies on `serde_json::from_str::<serde_json::Value>`: the parse result is
/// a function of the input text alone; `Err` exactly when the text is not
/// valid JSON. The conversion stage is [`json_from_value`].
#[verifier::external_body]
pub fn parse_json(text: &str) -> (r: Option<JsonValue>)
    ensures
        r == json_of(text@),
{
    match serde_json::from_str::<serde_json::Value>(text) {
        Ok(v) => Some(json_from_value(v)),
        Err(_) => None,
    }
}

/// Conversion stage of [`parse_json`]: translates each `serde_json::Value`
/// variant to its [`JsonValue`] counterpart, one arm per variant. A number
/// that `serde_json::Number::as_u64` cannot represent becomes
/// [`JsonValue::OtherNumber`].
#[verifier::external_body]
fn json_from_value(v: serde_json::Value) -> JsonValue {
    match v {
        serde_json::Value::Null => JsonValue::Null,
        serde_json::Value::Bool(b) => JsonValue::Bool(b),
        serde_json::Value::Number(n) => match n.as_u64() {
            Some(u) => JsonValue::UInt(u),
            None => JsonValue::OtherNumber,
        },
        serde_json::Value::String(s) => JsonValue::Str(s),
        serde_json::Value::Array(a) => JsonValue::Arr(a.into_iter().map(json_from_value).collect()),
        serde_json::Value::Object(o) => JsonValue::Obj(
            o.into_iter().map(|f| (f.0, json_from_value(f.1))).collect(),
        ),
    }
}

/// Relies on `serde_json::to_string_pretty` on a `serde_json::Value`, which
/// cannot fail for values of that type: the rendered text is a function of
/// the value alone. The conversion stage is [`json_to_value`];
/// [`JsonValue::OtherNumber`] renders as `null`, and no encoder of this
/// library produces it.
#[verifier::external_body]
pub fn to_json_text(v: &JsonValue) -> (r: String)
    ensures
        r@ == json_text_of(*v),
{
    serde_json::to_string_pretty(&json_to_value(v)).unwrap_or_default()
}

/// Conversion stage of [`to_json_text`]: translates each [`JsonValue`]
/// variant back to `serde_json::Value`, one arm per variant.
#[verifier::external_body]
fn json_to_value(v: &JsonValue) -> serde_json::Value {
    match v {
        JsonValue::Null | JsonValue::OtherNumber => serde_json::Value::Null,
        JsonValue::Bool(b) => serde_json::Value::Bool(*b),
        JsonValue::UInt(u) => serde_json::Value::Number((*u).into()),
        JsonValue::Str(s) => serde_json::Value::String(s.clone()),
        JsonValue::Arr(a) => serde_json::Value::Array(a.iter().map(json_to_value).collect()),
        JsonValue::Obj(o) => serde_json::Value::Object(
            o.iter().map(|f| (f.0.clone(), json_to_value(&f.1))).collect(),
        ),
    }
}

/// The value under `key` in an object's field list: first match wins.
pub open spec fn spec_obj_get(fields: Seq<(String, JsonValue)>, key: Seq<char>) -> Option<
    JsonValue,
>
    decreases fields.len(),
{
    if fields.len() == 0 {
        None
    } else if fields[0].0@ == key {
        Some(fields[0].1)
    } else {
        spec_obj_get(fields.drop_first(), key)
    }
}

/// The lookup yields the first field whose name matches `key`.
pub proof fn lemma_obj_get_found(fields: Seq<(String, JsonValue)>, key: Seq<char>, i: int)
    requires
        0 <= i < fields.len(),
        fields[i].0@ == key,
        forall|j: int| 0 <= j < i ==> fields[j].0@ != key,
    ensures
        spec_obj_get(fields, key) == Some(fields[i].1),
    decreases i,
{
    if i == 0 {
    } else {
        assert(fields.drop_first()[i - 1] == fields[i]);
        assert(forall|j: int| 0 <= j < i - 1 ==> fields.drop_first()[j] == fields[j + 1]);
        lemma_obj_get_found(fields.drop_first(), key, i - 1);
    }
}

/// The value under `key` when `v` is an object; `None` otherwise.
pub open spec fn spec_json_get(v: JsonValue, key: Seq<char>) -> Option<JsonValue> {
    match v {
        JsonValue::Obj(fields) => spec_obj_get(fields@, key),
        _ => None,
    }
}

/// Looks `key` up in `v`, which yields a value exactly when `v` is an object
/// with such a field.
pub fn json_get<'a>(v: &'a JsonValue, key: &str) -> (r: Option<&'a JsonValue>)
    ensures
        match r {
            Some(f) => spec_json_get(*v, key@) == Some(*f),
            None => spec_json_get(*v, key@) is None,
        },
{
    match v {
        JsonValue::Obj(fields) => {
            let n = fields.len();
            let mut i: usize = 0;
            proof {
                assert(fields@.skip(0) =~= fields@);
                assert(spec_json_get(*v, key@) == spec_obj_get(fields@, key@));
            }
            while i < n
                invariant
                    n == fields@.len(),
                    0 <= i <= n,
                    spec_json_get(*v, key@) == spec_obj_get(fields@, key@),
                    spec_obj_get(fields@.skip(i as int), key@) == spec_obj_get(
                        fields@,
                        key@,
                    ),
                decreases n - i,
            {
                proof {
                    assert(fields@.skip(i as int)[0] == fields@[i as int]);
                    assert(fields@.skip(i as int).drop_first() =~= fields@.skip(i as int + 1));
                }
                if str_eq(fields[i].0.as_str(), key) {
                    proof {
                        assert(spec_obj_get(fields@.skip(i as int), key@) == Some(
                            fields@[i as int].1,
                        ));
                        assert(spec_json_get(*v, key@) == Some(fields@[i as int].1));
                    }
                    return Some(&fields[i].1);
                }
                i += 1;
            }
            proof {
                assert(fields@.skip(n as int) =~= Seq::<(String, JsonValue)>::empty());
            }
            None
        },
        _ => None,
    }
}

/// The string under `key` when the field exists and holds a string.
pub open spec fn spec_get_string(v: JsonValue, key: Seq<char>) -> Option<String> {
    match spec_json_get(v, key) {
        Some(JsonValue::Str(s)) => Some(s),
        _ => None,
    }
}

/// Reads a required string field.
pub fn get_string(v: &JsonValue, key: &str) -> (r: Option<String>)
    ensures
        r == spec_get_string(*v, key@),
{
    match json_get(v, key) {
        Some(JsonValue::Str(s)) => Some(s.clone()),
        _ => None,
    }
}

/// The unsigned integer under `key` when the field exists and holds one.
pub open spec fn spec_get_uint(v: JsonValue, key: Seq<char>) -> Option<u64> {
    match spec_json_get(v, key) {
        Some(JsonValue::UInt(u)) => Some(u),
        _ => None,
    }
}

/// Reads a required unsigned integer field.
pub fn get_uint(v: &JsonValue, key: &str) -> (r: Option<u64>)
    ensures
        r == spec_get_uint(*v, key@),
{
    match json_get(v, key) {
        Some(JsonValue::UInt(u)) => Some(*u),
        _ => None,
    }
}

/// An optional string field, read as a serde `Option<String>` field is:
/// an absent field and an explicit `null` both mean "no value" (`Some(None)`),
/// a string means a value, and any other shape is a decode failure (`None`).
pub open spec fn spec_get_opt_string(v: JsonValue, key: Seq<char>) -> Option<Option<String>> {
    match spec_json_get(v, key) {
        None => Some(None),
        Some(JsonValue::Null) => Some(None),
        Some(JsonValue::Str(s)) => Some(Some(s)),
        Some(_) => None,
    }
}

/// Reads an optional string field; see [`spec_get_opt_string`].
pub fn get_opt_string(v: &JsonValue, key: &str) -> (r: Option<Option<String>>)
    ensures
        r == spec_get_opt_string(*v, key@),
{
    match json_get(v, key) {
        None => Some(None),
        Some(JsonValue::Null) => Some(None),
        Some(JsonValue::Str(s)) => Some(Some(s.clone())),
        Some(_) => None,
    }
}

/// An optional unsigned integer field, with the same absence rules as
/// [`spec_get_opt_string`].
pub open spec fn spec_get_opt_uint(v: JsonValue, key: Seq<char>) -> Option<Option<u64>> {
    match spec_json_get(v, key) {
        None => Some(None),
        Some(JsonValue::Null) => Some(None),
        Some(JsonValue::UInt(u)) => Some(Some(u)),
        Some(_) => None,
    }
}

/// Reads an optional unsigned integer field; see [`spec_get_opt_uint`].
pub fn get_opt_uint(v: &JsonValue, key: &str) -> (r: Option<Option<u64>>)
    ensures
        r == spec_get_opt_uint(*v, key@),
{
    match json_get(v, key) {
        None => Some(None),
        Some(JsonValue::Null) => Some(None),
        Some(JsonValue::UInt(u)) => Some(Some(*u)),
        Some(_) => None,
    }
}

/// The views of the strings in `vals`, when every element is a string.
pub open spec fn spec_string_views(vals: Seq<JsonValue>) -> Option<Seq<Seq<char>>>
    decreases vals.len(),
{
    if vals.len() == 0 {
        Some(Seq::empty())
    } else {
        match vals[0] {
            JsonValue::Str(s) => match spec_string_views(vals.drop_first()) {
                Some(rest) => Some(seq![s@] + rest),
                None => None,
            },
            _ => None,
        }
    }
}

/// Extracts an all-strings array as owned strings.
pub fn string_array(vals: &Vec<JsonValue>) -> (r: Option<Vec<String>>)
    ensures
        match r {
            Some(out) => spec_string_views(vals@) == Some(out.deep_view()),
            None => spec_string_views(vals@) is None,
        },
{
    let n = vals.len();
    let mut out: Vec<String> = Vec::new();
    let mut i: usize = 0;
    proof {
        assert(vals@.skip(0) =~= vals@);
        assert(Seq::<Seq<char>>::empty() + spec_string_views(vals@).unwrap()
            =~= spec_string_views(vals@).unwrap());
    }
    while i < n
        invariant
            n == vals@.len(),
            0 <= i <= n,
            out.deep_view().len() == i,
            match spec_string_views(vals@.skip(i as int)) {
                Some(rest) => spec_string_views(vals@) == Some(out.deep_view() + rest),
                None => spec_string_views(vals@) is None,
            },
        decreases n - i,
    {
        proof {
            assert(vals@.skip(i as int)[0] == vals@[i as int]);
            assert(vals@.skip(i as int).drop_first() =~= vals@.skip(i as int + 1));
        }
        match &vals[i] {
            JsonValue::Str(s) => {
                let ghost prior = out.deep_view();
                out.push(s.clone());
                proof {
                    assert(out.deep_view() =~= prior.push(s@));
                    match spec_string_views(vals@.skip(i as int + 1)) {
                        Some(rest2) => {
                            assert(spec_string_views(vals@.skip(i as int)) == Some(
                                seq![s@] + rest2,
                            ));
                            assert(prior.push(s@) + rest2 =~= prior + (seq![s@] + rest2));
                        },
                        None => {
                            assert(spec_string_views(vals@.skip(i as int)) is None);
                        },
                    }
                }
                i += 1;
            },
            _ => {
                proof {
                    assert(spec_string_views(vals@.skip(i as int)) is None);
                }
                return None;
            },
        }
    }
    proof {
        assert(vals@.skip(n as int) =~= Seq::<JsonValue>::empty());
        assert(out.deep_view() + Seq::<Seq<char>>::empty() =~= out.deep_view());
    }
    Some(out)
}

} // verus!
