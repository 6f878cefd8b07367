//! JSON documents as plain values, and the one call that reads them from
//! text.

use serde_json::Value;
use vstd::prelude::*;

verus! {

/// A JSON document. Numbers keep the form in which they were read: an
/// integer that is not negative, a negative integer, or a floating-point
/// number by the bits of its binary64 form.
#[derive(Debug)]
pub enum Json {
    Null,
    Bool(bool),
    Unsigned(u64),
    Negative(i64),
    Real(u64),
    Text(String),
    Array(Vec<Json>),
    Object(Vec<(String, Json)>),
}

#[verifier::external_type_specification]
#[verifier::external_body]
pub struct ExValue(serde_json::Value);

#[verifier::external_type_specification]
#[verifier::external_body]
pub struct ExNumber(serde_json::Number);

/// The document that a text is read as; none where the text is not one
/// JSON value.
pub uninterp spec fn json_document(text: Seq<char>) -> Option<Json>;

/// Rewrites a `serde_json::Number` as a `Json`: an `Unsigned` where `as_u64`
/// gives it, else a `Negative` where `as_i64` gives it, else the bits of
/// what `as_f64` gives.
///
/// Trusted: nothing is claimed of the result here.
#[verifier::external_body]
fn json_from_number(number: &serde_json::Number) -> Json {
    match (number.as_u64(), number.as_i64(), number.as_f64()) {
        (Some(u), _, _) => Json::Unsigned(u),
        (None, Some(i), _) => Json::Negative(i),
        (None, None, Some(x)) => Json::Real(x.to_bits()),
        (None, None, None) => Json::Null,
    }
}

/// Rewrites a `serde_json::Value` as a `Json`, variant by variant. The
/// members of an object come in the order in which `serde_json::Map` hands
/// them out.
///
/// Trusted: nothing is claimed of the result here.
#[verifier::external_body]
fn json_from_value(value: &Value) -> Json {
    match value {
        Value::Null => Json::Null,
        Value::Bool(b) => Json::Bool(*b),
        Value::Number(n) => json_from_number(n),
        Value::String(s) => Json::Text(s.clone()),
        Value::Array(a) => Json::Array(a.iter().map(json_from_value).collect()),
        Value::Object(m) => Json::Object(
            m.iter().map(|(k, v)| (k.clone(), json_from_value(v))).collect(),
        ),
    }
}

/// Reads a text as one JSON document.
///
/// Trusted: `serde_json::from_str::<serde_json::Value>` is a function of
/// the text alone, so what comes back, rewritten as a `Json`, is the
/// document named `json_document` of that text, and none where it fails.
#[verifier::external_body]
pub(crate) fn parse_json(text: &str) -> (doc: Option<Json>)
    ensures
        doc == json_document(text@),
{
    match serde_json::from_str::<Value>(text) {
        Ok(value) => Some(json_from_value(&value)),
        Err(_) => None,
    }
}

/// The first member of `members` named `key`.
pub open spec fn find_member(members: Seq<(String, Json)>, key: Seq<char>) -> Option<Json>
    decreases members.len(),
{
    if members.len() == 0 {
        None
    } else if members[0].0@ == key {
        Some(members[0].1)
    } else {
        find_member(members.drop_first(), key)
    }
}

impl Json {
    /// The member named `key` of an object; none of anything else.
    pub open spec fn member(self, key: Seq<char>) -> Option<Json> {
        match self {
            Json::Object(members) => find_member(members@, key),
            _ => None,
        }
    }

    /// The text of a string; none of anything else.
    pub open spec fn text(self) -> Option<Seq<char>> {
        match self {
            Json::Text(s) => Some(s@),
            _ => None,
        }
    }

    /// Looks up a member of an object by its name.
    pub fn get(&self, key: &str) -> (found: Option<&Json>)
        ensures
            match found {
                Some(value) => self.member(key@) == Some(*value),
                None => self.member(key@) is None,
            },
    {
        match self {
            Json::Object(members) => {
                let name = key.to_owned();
                let mut i: usize = 0;
                assert(members@.skip(0) == members@);
                while i < members.len()
                    invariant
                        i <= members.len(),
                        name@ == key@,
                        self.member(key@) == find_member(members@, key@),
                        find_member(members@, key@) == find_member(members@.skip(i as int), key@),
                    decreases members.len() - i,
                {
                    assert(members@.skip(i as int).drop_first() == members@.skip(i + 1));
                    assert(members@.skip(i as int)[0] == members@[i as int]);
                    if members[i].0 == name {
                        return Some(&members[i].1);
                    }
                    i += 1;
                }
                None
            },
            _ => None,
        }
    }

    /// Whether this is a string with exactly the text `expected`.
    pub fn is_text(&self, expected: &str) -> (same: bool)
        ensures
            same == (self.text() == Some(expected@)),
    {
        match self {
            Json::Text(s) => {
                let other = expected.to_owned();
                *s == other
            },
            _ => false,
        }
    }
}

} // verus!
