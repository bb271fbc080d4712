//! A JSON document model holding, as plain values, what the library reads from
//! JSON: strings, integers that fit an `i64`, arrays and objects.

use vstd::prelude::*;

use crate::text::str_eq;

verus! {

/// A JSON value. Numbers that are not integers representable as `i64` are kept
/// as their text in [`Json::OtherNumber`]: nothing in the library reads them.
#[derive(Debug)]
pub enum Json {
    Null,
    Bool(bool),
    Int(i64),
    /// The number's JSON text.
    OtherNumber(String),
    Str(String),
    Array(Vec<Json>),
    /// Members as a sequence of key and value; a member is found by its key
    /// ([`lookup`] takes the first with that key). A parsed object holds each
    /// key once, in the order serde_json's map keeps (sorted by key).
    Object(Vec<(String, Json)>),
}

/// The value of the first member of `members` whose key is `key`.
pub open spec fn lookup(members: Seq<(String, Json)>, key: Seq<char>) -> Option<Json>
    decreases members.len(),
{
    if members.len() == 0 {
        None
    } else if members[0].0@ == key {
        Some(members[0].1)
    } else {
        lookup(members.drop_first(), key)
    }
}

/// The member at `i` is the first with key `key`, so it is what a lookup of
/// `key` finds.
pub proof fn lemma_lookup_at(members: Seq<(String, Json)>, i: int, key: Seq<char>)
    requires
        0 <= i < members.len(),
        members[i].0@ == key,
        forall|j: int| 0 <= j < i ==> (#[trigger] members[j]).0@ != key,
    ensures
        lookup(members, key) == Some(members[i].1),
    decreases i,
{
    if i > 0 {
        assert forall|j: int| 0 <= j < i - 1 implies (#[trigger] members.drop_first()[j]).0@ != key by {
            assert(members.drop_first()[j] == members[j + 1]);
        }
        lemma_lookup_at(members.drop_first(), i - 1, key);
    }
}

/// A reference option read as the value it points to.
pub open spec fn deref_opt(o: Option<&Json>) -> Option<Json> {
    match o {
        Some(v) => Some(*v),
        None => None,
    }
}

impl Json {
    /// The member `key` of an object; `None` for a missing key or a non-object
    /// (as `serde_json::Value::get` with a string index).
    pub open spec fn field(self, key: Seq<char>) -> Option<Json> {
        match self {
            Json::Object(members) => lookup(members@, key),
            _ => None,
        }
    }

    /// The text of a string value (as `Value::as_str`).
    pub open spec fn text(self) -> Option<Seq<char>> {
        match self {
            Json::Str(s) => Some(s@),
            _ => None,
        }
    }

    /// The member `key` read as a string.
    pub open spec fn str_field(self, key: Seq<char>) -> Option<Seq<char>> {
        match self.field(key) {
            Some(v) => v.text(),
            None => None,
        }
    }

    /// The member `key` read as an `i64` (as `Value::as_i64`).
    pub open spec fn int_field(self, key: Seq<char>) -> Option<i64> {
        match self.field(key) {
            Some(Json::Int(i)) => Some(i),
            _ => None,
        }
    }

    /// The member `key` of an object, as `Value::get` returns it.
    pub fn get(&self, key: &str) -> (r: Option<&Json>)
        ensures
            deref_opt(r) == self.field(key@),
    {
        match self {
            Json::Object(members) => {
                let mut i: usize = 0;
                assert(members@.skip(0) =~= members@);
                while i < members.len()
                    invariant
                        i <= members@.len(),
                        self.field(key@) == lookup(members@, key@),
                        lookup(members@, key@) == lookup(members@.skip(i as int), key@),
                    decreases members@.len() - i,
                {
                    assert(members@.skip(i as int).drop_first() =~= members@.skip(i + 1));
                    assert(members@.skip(i as int)[0] == members@[i as int]);
                    if str_eq(members[i].0.as_str(), key) {
                        return Some(&members[i].1);
                    }
                    i = i + 1;
                }
                None
            },
            _ => None,
        }
    }

    /// The member `key` of an object, taken out of the document.
    pub fn into_field(self, key: &str) -> (r: Option<Json>)
        ensures
            r == self.field(key@),
    {
        match self {
            Json::Object(members) => {
                let mut members = members;
                let mut i: usize = 0;
                let ghost all = members@;
                assert(all.skip(0) =~= all);
                while i < members.len()
                    invariant
                        members@ == all,
                        i <= all.len(),
                        self.field(key@) == lookup(all, key@),
                        lookup(all, key@) == lookup(all.skip(i as int), key@),
                    decreases all.len() - i,
                {
                    assert(all.skip(i as int).drop_first() =~= all.skip(i + 1));
                    assert(all.skip(i as int)[0] == all[i as int]);
                    if str_eq(members[i].0.as_str(), key) {
                        let entry = members.remove(i);
                        return Some(entry.1);
                    }
                    i = i + 1;
                }
                None
            },
            _ => None,
        }
    }

    /// The text of a string value, as `Value::as_str` returns it.
    pub fn as_str(&self) -> (r: Option<&str>)
        ensures
            match r {
                Some(s) => self.text() == Some(s@),
                None => self.text() is None,
            },
    {
        match self {
            Json::Str(s) => Some(s.as_str()),
            _ => None,
        }
    }

    /// The member `key` read as a string.
    pub fn get_str(&self, key: &str) -> (r: Option<&str>)
        ensures
            match r {
                Some(s) => self.str_field(key@) == Some(s@),
                None => self.str_field(key@) is None,
            },
    {
        match self.get(key) {
            Some(v) => v.as_str(),
            None => None,
        }
    }

    /// The member `key` read as an `i64`.
    pub fn get_i64(&self, key: &str) -> (r: Option<i64>)
        ensures
            r == self.int_field(key@),
    {
        match self.get(key) {
            Some(Json::Int(i)) => Some(*i),
            _ => None,
        }
    }
}

#[verifier::external_type_specification]
#[verifier::external_body]
pub struct ExJsonValue(serde_json::Value);

/// The document that `serde_json::from_slice::<serde_json::Value>` parses from
/// `bytes`, as a [`Json`]; `None` when the crate reports an error.
pub uninterp spec fn json_decode(bytes: Seq<u8>) -> Option<Json>;

/// The bytes that `serde_json::to_vec` writes for `doc`.
pub uninterp spec fn json_encode(doc: Json) -> Seq<u8>;

/// Calls `serde_json::from_slice::<serde_json::Value>(bytes)` and converts the
/// document member for member. The contract names the result [`json_decode`].
#[verifier::external_body]
pub(crate) fn parse_json(bytes: &[u8]) -> (r: Option<Json>)
    ensures
        r == json_decode(bytes@),
{
    match serde_json::from_slice::<serde_json::Value>(bytes) {
        Ok(v) => Some(Json::from_value(v)),
        Err(_) => None,
    }
}

/// Calls `serde_json::to_vec` on `doc`, converted member for member. Writing a
/// `serde_json::Value` cannot fail. The contract names the result [`json_encode`].
#[verifier::external_body]
pub(crate) fn to_json_bytes(doc: &Json) -> (r: Vec<u8>)
    ensures
        r@ == json_encode(*doc),
{
    serde_json::to_vec(&doc.to_value()).unwrap_or_default()
}

impl Json {
    /// Converts a `serde_json::Value` variant for variant; used only by
    /// [`parse_json`], whose contract states what the conversion yields.
    #[verifier::external_body]
    fn from_value(v: serde_json::Value) -> Json {
        match v {
            serde_json::Value::Null => Json::Null,
            serde_json::Value::Bool(b) => Json::Bool(b),
            serde_json::Value::Number(n) => match n.as_i64() {
                Some(i) => Json::Int(i),
                None => Json::OtherNumber(n.to_string()),
            },
            serde_json::Value::String(s) => Json::Str(s),
            serde_json::Value::Array(a) => Json::Array(a.into_iter().map(Json::from_value).collect()),
            serde_json::Value::Object(m) => Json::Object(m.into_iter().map(|(k, v)| (k, Json::from_value(v))).collect()),
        }
    }

    /// Converts back to a `serde_json::Value` variant for variant; used only by
    /// [`to_json_bytes`], whose contract names the bytes written.
    #[verifier::external_body]
    fn to_value(&self) -> serde_json::Value {
        match self {
            Json::Null => serde_json::Value::Null,
            Json::Bool(b) => serde_json::Value::Bool(*b),
            Json::Int(i) => serde_json::Value::from(*i),
            Json::OtherNumber(t) => serde_json::from_str(t).unwrap_or(serde_json::Value::Null),
            Json::Str(s) => serde_json::Value::String(s.clone()),
            Json::Array(a) => serde_json::Value::Array(a.iter().map(Json::to_value).collect()),
            Json::Object(m) => serde_json::Value::Object(m.iter().map(|(k, v)| (k.clone(), v.to_value())).collect()),
        }
    }
}

} // verus!
