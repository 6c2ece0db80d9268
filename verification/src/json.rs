//! JSON documents of the REST transport.
//!
//! Reading a text as JSON is the work of the `serde_json` crate; what a text
//! reads as is therefore a named result, [`json_document`]. The document itself
//! is a value of this library, [`Json`], and everything that is made of it is
//! stated exactly.

use vstd::prelude::*;
use crate::record::{pairs_view, FromQueryString};
use crate::status::{parser_error, QueryError, QueryResult};

verus! {

/// A JSON value. A number is kept as the text that writes it; the members of
/// an object are listed in the order in which the parser hands them out, each
/// key once.
#[derive(Debug)]
pub enum Json {
    Null,
    Bool(bool),
    Number(String),
    Text(String),
    Array(Vec<Json>),
    Object(Vec<(String, Json)>),
}

/// The error of the outside parser; it is carried, never inspected.
#[verifier::external_type_specification]
#[verifier::external_body]
pub struct ExJsonError(serde_json::Error);

/// The parser's own form of a JSON value.
#[verifier::external_type_specification]
#[verifier::external_body]
pub struct ExJsonValue(serde_json::Value);

/// The document that `serde_json` reads out of a text; `None` where the text
/// is not one JSON value.
pub uninterp spec fn json_document(text: Seq<char>) -> Option<Json>;

/// Turns a `serde_json::Value` into a [`Json`], variant for variant; a number
/// becomes the text that `serde_json` prints for it. Nothing is claimed of
/// the result.
#[verifier::external_body]
fn json_of_value(value: serde_json::Value) -> Json {
    match value {
        serde_json::Value::Null => Json::Null,
        serde_json::Value::Bool(b) => Json::Bool(b),
        serde_json::Value::Number(n) => Json::Number(n.to_string()),
        serde_json::Value::String(s) => Json::Text(s),
        serde_json::Value::Array(items) => Json::Array(
            items.into_iter().map(json_of_value).collect(),
        ),
        serde_json::Value::Object(members) => Json::Object(
            members.into_iter().map(|(k, v)| (k, json_of_value(v))).collect(),
        ),
    }
}

/// Calls `serde_json::from_str` to read a text as one JSON value.
///
/// The contract claims only that the outcome is a function of the text: the
/// parser keeps no state and reads nothing but its argument.
#[verifier::external_body]
pub(crate) fn parse_json(text: &str) -> (r: Result<Json, serde_json::Error>)
    ensures
        r is Ok == json_document(text@) is Some,
        r matches Ok(document) ==> json_document(text@) == Some(document),
{
    serde_json::from_str::<serde_json::Value>(text).map(json_of_value)
}

/// The value of the first member with the given key.
pub open spec fn member(members: Seq<(String, Json)>, key: Seq<char>) -> Option<Json>
    decreases members.len(),
{
    if members.len() == 0 {
        None
    } else if members[0].0@ == key {
        Some(members[0].1)
    } else {
        member(members.drop_first(), key)
    }
}

/// The members of an object whose values are texts, as a list of fields.
pub open spec fn text_members(members: Seq<(String, Json)>) -> Seq<(Seq<char>, Seq<char>)>
    decreases members.len(),
{
    if members.len() == 0 {
        Seq::empty()
    } else {
        let before = text_members(members.drop_last());
        match members.last().1 {
            Json::Text(text) => before.push((members.last().0@, text@)),
            _ => before,
        }
    }
}

/// Finds the position of the first member with the given key.
pub fn find_member(members: &Vec<(String, Json)>, key: &str) -> (r: Option<usize>)
    ensures
        match r {
            Some(at) => at < members.len() && member(members@, key@) == Some(members@[at as int].1),
            None => member(members@, key@) is None,
        },
{
    let wanted: String = key.to_owned();
    let mut i: usize = 0;
    assert(members@.skip(0) =~= members@);
    while i < members.len()
        invariant
            i <= members.len(),
            wanted@ == key@,
            member(members@, key@) == member(members@.skip(i as int), key@),
        decreases members.len() - i,
    {
        proof {
            assert(members@.skip(i as int).drop_first() =~= members@.skip(i + 1));
            assert(members@.skip(i as int)[0] == members@[i as int]);
        }
        if members[i].0 == wanted {
            return Some(i);
        }
        i += 1;
    }
    None
}

/// Lists the members of an object whose values are texts.
pub fn text_fields(members: &Vec<(String, Json)>) -> (r: Vec<(String, String)>)
    ensures
        pairs_view(r@) == text_members(members@),
{
    let mut out: Vec<(String, String)> = Vec::new();
    let mut i: usize = 0;
    assert(members@.take(0) =~= Seq::<(String, Json)>::empty());
    assert(pairs_view(out@) =~= text_members(members@.take(0)));
    while i < members.len()
        invariant
            i <= members.len(),
            pairs_view(out@) == text_members(members@.take(i as int)),
        decreases members.len() - i,
    {
        let ghost before = pairs_view(out@);
        proof {
            assert(members@.take(i + 1).drop_last() =~= members@.take(i as int));
            assert(members@.take(i + 1).last() == members@[i as int]);
        }
        match &members[i].1 {
            Json::Text(text) => {
                out.push((members[i].0.clone(), text.clone()));
                assert(pairs_view(out@) =~= before.push((members@[i as int].0@, text@)));
            },
            _ => {},
        }
        i += 1;
    }
    assert(members@.take(members.len() as int) =~= members@);
    out
}

/// An entity that can be read from a JSON object.
pub trait FromJSON: FromQueryString {
    /// Builds the entity from a JSON object: the members whose values are
    /// texts are its fields, and the rest is ignored. A value that is no
    /// object is no entity.
    fn from_value(value: &Json) -> (r: QueryResult<Self>)
        ensures
            match *value {
                Json::Object(members) => match Self::record(text_members(members@)) {
                    Some(entity) => r matches Ok(e) && e@ == entity,
                    None => r matches Err(e) && e@ == parser_error(),
                },
                _ => r matches Err(e) && e@ == parser_error(),
            },
    {
        match value {
            Json::Object(members) => {
                let fields = text_fields(members);
                match Self::from_fields(&fields) {
                    Some(entity) => Ok(entity),
                    None => Err(QueryError::exchange_failed("Got parser error.")),
                }
            },
            _ => Err(QueryError::exchange_failed("Got parser error.")),
        }
    }

    /// Reads the entity from the text of a JSON object.
    fn from_json(data: &str) -> (r: QueryResult<Self>)
        ensures
            match json_document(data@) {
                Some(Json::Object(members)) => match Self::record(text_members(members@)) {
                    Some(entity) => r matches Ok(e) && e@ == entity,
                    None => r matches Err(e) && e@ == parser_error(),
                },
                _ => r matches Err(e) && e@ == parser_error(),
            },
    {
        match parse_json(data) {
            Ok(document) => Self::from_value(&document),
            Err(_) => Err(QueryError::exchange_failed("Got parser error.")),
        }
    }
}

impl FromJSON for crate::entities::WhoAmI {

}

impl FromJSON for crate::entities::CreateChannel {

}

impl FromJSON for crate::entities::Channel {

}

impl FromJSON for crate::entities::Client {

}

impl FromJSON for crate::entities::ServerInfo {

}

} // verus!
