//! JSON documents as plain data, read with `serde_json`.

use vstd::prelude::*;

verus! {

/// A JSON value. Numbers are kept in their decimal rendering; the members
/// of an object are kept as pairs of key and value, in the order the parser
/// hands them out.
#[derive(Debug)]
pub enum Json {
    Null,
    Bool(bool),
    Number(String),
    Text(String),
    List(Vec<Json>),
    Object(Vec<(String, Json)>),
}

/// `serde_json::Value`, a parsed document; opaque here.
#[verifier::external_type_specification]
#[verifier::external_body]
pub struct ExValue(serde_json::Value);

/// What `serde_json` makes of `text`: the document it holds, or the
/// parser's complaint where `text` is not one JSON value.
pub uninterp spec fn json_reading(text: Seq<char>) -> Result<Json, Seq<char>>;

/// The mathematical content of a reading: the document as it is, the
/// complaint as its characters.
pub open spec fn reading_of(read: Result<Json, String>) -> Result<Json, Seq<char>> {
    match read {
        Ok(document) => Ok(document),
        Err(complaint) => Err(complaint@),
    }
}

/// Rewrites a `serde_json::Value` as a [`Json`], variant for variant:
/// numbers through their `Display`, arrays and objects element by element
/// in the order `serde_json` keeps them.
#[verifier::external_body]
fn lift(value: serde_json::Value) -> Json {
    match value {
        serde_json::Value::Null => Json::Null,
        serde_json::Value::Bool(flag) => Json::Bool(flag),
        serde_json::Value::Number(number) => Json::Number(number.to_string()),
        serde_json::Value::String(text) => Json::Text(text),
        serde_json::Value::Array(items) => Json::List(items.into_iter().map(lift).collect()),
        serde_json::Value::Object(members) => Json::Object(
            members.into_iter().map(|(key, member)| (key, lift(member))).collect(),
        ),
    }
}

/// `serde_json::from_str` at type `serde_json::Value`: parses `text` as one
/// JSON value. The result is a function of `text` alone, named
/// [`json_reading`]; the error is the text of `serde_json`'s error.
#[verifier::external_body]
pub(crate) fn parse_json(text: &str) -> (read: Result<Json, String>)
    ensures
        reading_of(read) == json_reading(text@),
{
    match serde_json::from_str::<serde_json::Value>(text) {
        Ok(value) => Ok(lift(value)),
        Err(error) => Err(error.to_string()),
    }
}

/// The position of the first member at or after `from` whose key is `key`,
/// or the number of members where there is none.
pub open spec fn member_at(members: Seq<(String, Json)>, key: Seq<char>, from: int) -> int
    decreases members.len() - from,
{
    if from < 0 || from >= members.len() {
        members.len() as int
    } else if members[from].0@ == key {
        from
    } else {
        member_at(members, key, from + 1)
    }
}

/// The member of an object stored under `key`, if there is one.
pub open spec fn member(members: Seq<(String, Json)>, key: Seq<char>) -> Option<Json> {
    let at = member_at(members, key, 0);
    if at < members.len() {
        Some(members[at].1)
    } else {
        None
    }
}

/// Looks up the member stored under `key`.
pub fn find_member<'a>(members: &'a Vec<(String, Json)>, key: &str) -> (found: Option<&'a Json>)
    ensures
        found matches Some(value) ==> member(members@, key@) == Some(*value),
        found is None ==> member(members@, key@) is None,
{
    let wanted = key.to_string();
    let mut i: usize = 0;
    while i < members.len()
        invariant
            i <= members.len(),
            wanted@ == key@,
            member_at(members@, key@, 0) == member_at(members@, key@, i as int),
        decreases members.len() - i,
    {
        if members[i].0 == wanted {
            return Some(&members[i].1);
        }
        i += 1;
    }
    None
}

} // verus!
