use vstd::prelude::*;

verus! {

#[verifier::external_type_specification]
#[verifier::external_body]
pub struct ExJsonValue(serde_json::Value);

#[verifier::external_type_specification]
#[verifier::external_body]
pub struct ExJsonNumber(serde_json::Number);

/// A JSON document as the protocol exchanges it.
#[derive(Debug, PartialEq)]
pub enum Json {
    Null,
    Bool(bool),
    /// A number that fits an `i64`.
    Int(i64),
    /// Any other number (a fraction, or an integer beyond `i64`).
    Number(serde_json::Number),
    Str(String),
    Array(Vec<Json>),
    /// The members of an object, each key once.
    Object(Vec<(String, Json)>),
}

/// The value under `key` among the members `fields`.
pub open spec fn field(fields: Seq<(String, Json)>, key: Seq<char>) -> Option<Json>
    decreases fields.len(),
{
    if fields.len() == 0 {
        None
    } else if fields[0].0@ == key {
        Some(fields[0].1)
    } else {
        field(fields.drop_first(), key)
    }
}

/// The value under `key` when `j` is an object.
pub open spec fn member(j: Json, key: Seq<char>) -> Option<Json> {
    match j {
        Json::Object(fields) => field(fields@, key),
        _ => None,
    }
}

/// `j` is a string whose text is `s`.
pub open spec fn is_str(j: Json, s: Seq<char>) -> bool {
    match j {
        Json::Str(t) => t@ == s,
        _ => false,
    }
}

/// The value that serde_json reads from `text`, if the text is JSON.
pub uninterp spec fn parsed_json(text: Seq<char>) -> Option<Json>;

/// The message with which serde_json refuses `text`.
pub uninterp spec fn parse_error_text(text: Seq<char>) -> Seq<char>;

/// The JSON text that serde_json writes for `j`.
pub uninterp spec fn json_text(j: Json) -> Seq<char>;

/// Relies on the variants of serde_json::Value: each node is moved into the
/// same node of `Json`, integers that fit an `i64` into `Json::Int`.
#[verifier::external_body]
fn json_of_value(v: serde_json::Value) -> Json {
    match v {
        serde_json::Value::Null => Json::Null,
        serde_json::Value::Bool(b) => Json::Bool(b),
        serde_json::Value::Number(n) => match n.as_i64() {
            Some(i) => Json::Int(i),
            None => Json::Number(n),
        },
        serde_json::Value::String(s) => Json::Str(s),
        serde_json::Value::Array(a) => Json::Array(a.into_iter().map(json_of_value).collect()),
        serde_json::Value::Object(m) => Json::Object(
            m.into_iter().map(|(k, x)| (k, json_of_value(x))).collect(),
        ),
    }
}

/// Relies on the variants of serde_json::Value: each node of `j` becomes the
/// same node of a `serde_json::Value`.
#[verifier::external_body]
fn value_of_json(j: &Json) -> serde_json::Value {
    match j {
        Json::Null => serde_json::Value::Null,
        Json::Bool(b) => serde_json::Value::Bool(*b),
        Json::Int(i) => serde_json::Value::from(*i),
        Json::Number(n) => serde_json::Value::Number(n.clone()),
        Json::Str(s) => serde_json::Value::String(s.clone()),
        Json::Array(a) => serde_json::Value::Array(a.iter().map(value_of_json).collect()),
        Json::Object(m) => serde_json::Value::Object(
            m.iter().map(|(k, x)| (k.clone(), value_of_json(x))).collect(),
        ),
    }
}

/// Relies on serde_json::from_str into a serde_json::Value: it accepts exactly
/// the JSON texts, and what it reads, or the message with which it refuses,
/// depends on the text alone.
#[verifier::external_body]
pub(crate) fn parse_json(text: &str) -> (r: Result<Json, String>)
    ensures
        r is Ok <==> parsed_json(text@) is Some,
        r matches Ok(j) ==> parsed_json(text@) == Some(j),
        r matches Err(m) ==> m@ == parse_error_text(text@),
{
    match serde_json::from_str::<serde_json::Value>(text) {
        Ok(v) => Ok(json_of_value(v)),
        Err(e) => Err(e.to_string()),
    }
}

/// Relies on the `Display` impl of serde_json::Value, which writes compact JSON
/// text and depends on the value alone.
#[verifier::external_body]
pub(crate) fn to_json_text(j: &Json) -> (r: String)
    ensures
        r@ == json_text(*j),
{
    value_of_json(j).to_string()
}

impl Json {
    /// The value under `key` when this is an object.
    pub fn get(&self, key: &str) -> (r: Option<&Json>)
        ensures
            r is Some <==> member(*self, key@) is Some,
            r matches Some(v) ==> member(*self, key@) == Some(*v),
    {
        match self {
            Json::Object(fields) => {
                let k = key.to_owned();
                let mut i: usize = 0;
                assert(fields@.subrange(0, fields@.len() as int) =~= fields@);
                while i < fields.len()
                    invariant
                        i <= fields@.len(),
                        k@ == key@,
                        member(*self, key@) == field(fields@, key@),
                        field(fields@.subrange(i as int, fields@.len() as int), key@) == field(
                            fields@,
                            key@,
                        ),
                    decreases fields@.len() - i,
                {
                    let ghost rest = fields@.subrange(i as int, fields@.len() as int);
                    assert(rest[0] == fields@[i as int]);
                    if fields[i].0 == k {
                        assert(field(rest, key@) == Some(rest[0].1));
                        return Some(&fields[i].1);
                    }
                    assert(rest.drop_first() =~= fields@.subrange(i + 1, fields@.len() as int));
                    i = i + 1;
                }
                None
            },
            _ => None,
        }
    }

    /// Takes the value under `key` out of this object.
    pub fn take(self, key: &str) -> (r: Option<Json>)
        ensures
            r == member(self, key@),
    {
        let k = key.to_owned();
        match self {
            Json::Object(members) => {
                let mut fields = members;
                let ghost all = fields@;
                let mut i: usize = 0;
                assert(all.subrange(0, all.len() as int) =~= all);
                while i < fields.len()
                    invariant
                        i <= fields@.len(),
                        fields@ == all,
                        k@ == key@,
                        member(self, key@) == field(all, key@),
                        field(all.subrange(i as int, all.len() as int), key@) == field(all, key@),
                    decreases fields@.len() - i,
                {
                    let ghost rest = all.subrange(i as int, all.len() as int);
                    assert(rest[0] == all[i as int]);
                    if fields[i].0 == k {
                        assert(field(rest, key@) == Some(rest[0].1));
                        let pair = fields.swap_remove(i);
                        return Some(pair.1);
                    }
                    assert(rest.drop_first() =~= all.subrange(i + 1, all.len() as int));
                    i = i + 1;
                }
                None
            },
            _ => None,
        }
    }
}

} // verus!
