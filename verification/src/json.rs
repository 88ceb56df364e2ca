//! The library's own JSON document model, and the trusted decoder around
//! serde_json that produces it.
//!
//! Every reply of the hosting API is decoded once, at the boundary, into
//! [`Json`]; all field lookups and shape checks on the reply are verified
//! code on this type.

use vstd::prelude::*;

verus! {

/// A decoded JSON document. Numbers are carried by their decimal rendering;
/// object bindings keep the decoder's order.
pub enum Json {
    Null,
    Bool(bool),
    Num(String),
    Str(String),
    Arr(Vec<Json>),
    Obj(Vec<(String, Json)>),
}

/// The first binding for `key` among `entries`, if any.
pub open spec fn lookup(entries: Seq<(String, Json)>, key: Seq<char>) -> Option<Json>
    decreases entries.len(),
{
    if entries.len() == 0 {
        None
    } else if entries[0].0@ == key {
        Some(entries[0].1)
    } else {
        lookup(entries.drop_first(), key)
    }
}

/// The value of field `key`, if the document is an object that has it.
pub open spec fn spec_field(doc: Json, key: Seq<char>) -> Option<Json> {
    match doc {
        Json::Obj(entries) => lookup(entries@, key),
        _ => None,
    }
}

/// The character content, if the document is a string.
pub open spec fn spec_str_of(doc: Json) -> Option<Seq<char>> {
    match doc {
        Json::Str(s) => Some(s@),
        _ => None,
    }
}

proof fn lemma_lookup_skip(entries: Seq<(String, Json)>, key: Seq<char>, i: int)
    requires
        0 <= i < entries.len(),
        entries[i].0@ != key,
    ensures
        lookup(entries.skip(i), key) == lookup(entries.skip(i + 1), key),
{
    assert(entries.skip(i).drop_first() =~= entries.skip(i + 1));
    assert(entries.skip(i)[0] == entries[i]);
}

impl Json {
    /// Looks up field `key` of an object document; `None` on any other
    /// document shape, as an absent field would be.
    pub fn get<'a>(&'a self, key: &str) -> (r: Option<&'a Json>)
        ensures
            match r {
                Some(v) => spec_field(*self, key@) == Some(*v),
                None => spec_field(*self, key@) is None,
            },
    {
        let key_owned: String = key.to_owned();
        match self {
            Json::Obj(entries) => {
                let n = entries.len();
                let mut i: usize = 0;
                proof {
                    assert(entries@.skip(0) =~= entries@);
                }
                while i < n
                    invariant
                        *self == Json::Obj(*entries),
                        n == entries@.len(),
                        i <= n,
                        lookup(entries@, key@) == lookup(entries@.skip(i as int), key@),
                        key_owned@ == key@,
                    decreases n - i,
                {
                    if entries[i].0 == key_owned {
                        proof {
                            assert(entries@.skip(i as int)[0] == entries@[i as int]);
                            assert(entries@.skip(i as int).len() > 0);
                            assert(lookup(entries@.skip(i as int), key@) == Some(
                                entries@[i as int].1,
                            ));
                            assert(spec_field(*self, key@) == lookup(entries@, key@));
                        }
                        return Some(&entries[i].1);
                    }
                    proof {
                        lemma_lookup_skip(entries@, key@, i as int);
                    }
                    i = i + 1;
                }
                proof {
                    assert(entries@.skip(n as int) =~= Seq::<(String, Json)>::empty());
                }
                None
            },
            _ => None,
        }
    }

    /// The number of elements, if the document is an array; 0 otherwise.
    pub fn arr_len(&self) -> (n: usize)
        ensures
            match *self {
                Json::Arr(elems) => n == elems@.len(),
                _ => n == 0,
            },
    {
        match self {
            Json::Arr(elems) => elems.len(),
            _ => 0,
        }
    }

    /// Element `i` of an array document, if present.
    pub fn at<'a>(&'a self, i: usize) -> (r: Option<&'a Json>)
        ensures
            match *self {
                Json::Arr(elems) => if i < elems@.len() {
                    r == Some(&elems@[i as int])
                } else {
                    r is None
                },
                _ => r is None,
            },
    {
        match self {
            Json::Arr(elems) => if i < elems.len() {
                Some(&elems[i])
            } else {
                None
            },
            _ => None,
        }
    }

    /// The string content, if the document is a string.
    pub fn as_string<'a>(&'a self) -> (r: Option<&'a String>)
        ensures
            match r {
                Some(s) => spec_str_of(*self) == Some(s@),
                None => spec_str_of(*self) is None,
            },
    {
        match self {
            Json::Str(s) => Some(s),
            _ => None,
        }
    }

    /// Whether the document is the string `other`.
    pub fn is_str(&self, other: &str) -> (r: bool)
        ensures
            r == (spec_str_of(*self) == Some(other@)),
    {
        match self {
            Json::Str(s) => {
                let other_owned: String = other.to_owned();
                *s == other_owned
            },
            _ => false,
        }
    }
}

/// The document that the text decodes to, if it is well-formed JSON.
pub uninterp spec fn json_doc(text: Seq<char>) -> Option<Json>;

#[verifier::external_type_specification]
#[verifier::external_body]
pub struct ExValue(serde_json::Value);

/// Relies on serde_json::Value: each variant is carried over one for one
/// (numbers by serde_json::Number's decimal rendering).
#[verifier::external_body]
fn json_of_value(v: serde_json::Value) -> Json {
    match v {
        serde_json::Value::Null => Json::Null,
        serde_json::Value::Bool(b) => Json::Bool(b),
        serde_json::Value::Number(n) => Json::Num(n.to_string()),
        serde_json::Value::String(s) => Json::Str(s),
        serde_json::Value::Array(a) => Json::Arr(a.into_iter().map(json_of_value).collect()),
        serde_json::Value::Object(m) => Json::Obj(
            m.into_iter().map(|(k, x)| (k, json_of_value(x))).collect(),
        ),
    }
}

/// Relies on serde_json::from_str: decodes the text as one JSON document,
/// `None` when it is not well-formed JSON. The document is a function of the
/// text alone.
#[verifier::external_body]
pub(crate) fn parse_json(text: &str) -> (r: Option<Json>)
    ensures
        r == json_doc(text@),
{
    match serde_json::from_str::<serde_json::Value>(text) {
        Ok(v) => Some(json_of_value(v)),
        Err(_) => None,
    }
}

} // verus!
