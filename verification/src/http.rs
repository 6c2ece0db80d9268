//! Answers of the REST transport, and the address that requests go to.
//!
//! Every answer is an envelope: a `status` with a code and a message, and an
//! optional `body` that holds one entity as an object, or many as an array of
//! objects.

use vstd::prelude::*;
use crate::json::{find_member, json_document, member, parse_json, text_members, FromJSON, Json};
use crate::record::pairs_view;
use crate::status::{
    empty_response,
    parser_error,
    QueryError,
    QueryErrorView,
    QueryResult,
    WebQueryStatus,
    WebQueryStatusView,
};
use crate::text::{decimal, i32_value, parse_i32, push_decimal, push_str};

verus! {

/// The mathematical content of a [`Response`].
pub struct ResponseView {
    pub body: Option<Json>,
    pub status: WebQueryStatusView,
}

/// The envelope of an answer.
#[derive(Debug)]
pub struct Response {
    body: Option<Json>,
    status: WebQueryStatus,
}

impl View for Response {
    type V = ResponseView;

    closed spec fn view(&self) -> ResponseView {
        ResponseView { body: self.body, status: self.status@ }
    }
}

/// The status that a JSON value describes: an object with a `code` that is a
/// 32-bit integer and a `message` that is a text.
pub open spec fn status_of_value(value: Json) -> Option<WebQueryStatusView> {
    match value {
        Json::Object(members) => match (
            member(members@, "code"@),
            member(members@, "message"@),
        ) {
            (Some(Json::Number(code)), Some(Json::Text(message))) => match i32_value(code@) {
                Some(code) => Some(WebQueryStatusView { code, message: message@ }),
                None => None,
            },
            _ => None,
        },
        _ => None,
    }
}

/// The body of an envelope: the member `body`, unless it is missing or null.
pub open spec fn body_of(members: Seq<(String, Json)>) -> Option<Json> {
    match member(members, "body"@) {
        Some(Json::Null) => None,
        Some(body) => Some(body),
        None => None,
    }
}

/// The envelope that a document describes: an object with a `status`.
pub open spec fn envelope(document: Json) -> Option<ResponseView> {
    match document {
        Json::Object(members) => match member(members@, "status"@) {
            Some(status) => match status_of_value(status) {
                Some(status) => Some(ResponseView { body: body_of(members@), status }),
                None => None,
            },
            None => None,
        },
        _ => None,
    }
}

/// The entity that a JSON value describes.
pub open spec fn entity_of<T: FromJSON>(value: Json) -> Option<T::V> {
    match value {
        Json::Object(members) => T::record(text_members(members@)),
        _ => None,
    }
}

/// The entities that the elements of an array describe, if each describes
/// one.
pub open spec fn decode_items<T: FromJSON>(items: Seq<Json>) -> Option<Seq<T::V>>
    decreases items.len(),
{
    if items.len() == 0 {
        Some(Seq::empty())
    } else {
        match (decode_items::<T>(items.drop_last()), entity_of::<T>(items.last())) {
            (Some(before), Some(entity)) => Some(before.push(entity)),
            _ => None,
        }
    }
}

/// The entities of a body: those of its elements where it is an array, else
/// the one that it describes itself.
pub open spec fn body_entities<T: FromJSON>(body: Json) -> Option<Seq<T::V>> {
    match body {
        Json::Array(items) => decode_items::<T>(items@),
        _ => match entity_of::<T>(body) {
            Some(entity) => Some(seq![entity]),
            None => None,
        },
    }
}

/// What the status of an envelope makes of a result: the result where the
/// code is `0`, else the status as an error.
pub open spec fn settle<R>(status: WebQueryStatusView, result: R) -> Result<R, QueryErrorView> {
    if status.code == 0 {
        Ok(result)
    } else {
        Err(QueryErrorView { code: status.code, message: status.message })
    }
}

/// What an operation without a result makes of an answer.
pub open spec fn basic_outcome(text: Seq<char>) -> Result<(), QueryErrorView> {
    match json_document(text) {
        Some(document) => match envelope(document) {
            Some(response) => settle(response.status, ()),
            None => Err(parser_error()),
        },
        None => Err(parser_error()),
    }
}

/// What an operation with a result makes of an answer: an answer that is no
/// envelope, or whose body does not decode, is a parser error whatever its
/// status says; else the status decides, and the result is the body's
/// entities, or `None` where the envelope has no body.
pub open spec fn query_outcome<T: FromJSON>(text: Seq<char>) -> Result<
    Option<Seq<T::V>>,
    QueryErrorView,
> {
    match json_document(text) {
        Some(document) => match envelope(document) {
            Some(response) => match response.body {
                None => settle(response.status, None),
                Some(body) => match body_entities::<T>(body) {
                    Some(entities) => settle(response.status, Some(entities)),
                    None => Err(parser_error()),
                },
            },
            None => Err(parser_error()),
        },
        None => Err(parser_error()),
    }
}

/// The views of a list of entities.
pub open spec fn views<T: View>(list: Seq<T>) -> Seq<T::V> {
    Seq::new(list.len(), |i: int| list[i]@)
}

/// The view of a list of entities that may be absent.
pub open spec fn rows_view<T: View>(rows: Option<Vec<T>>) -> Option<Seq<T::V>> {
    match rows {
        Some(rows) => Some(views(rows@)),
        None => None,
    }
}

/// The first of a list of entities that may be absent or empty.
pub open spec fn first_of<V>(rows: Option<Seq<V>>) -> Option<V> {
    match rows {
        Some(rows) => if rows.len() > 0 {
            Some(rows[0])
        } else {
            None
        },
        None => None,
    }
}

/// Reads the status out of a JSON value.
fn read_status(value: &Json) -> (r: Option<WebQueryStatus>)
    ensures
        match status_of_value(*value) {
            Some(status) => r matches Some(s) && s@ == status,
            None => r is None,
        },
{
    match value {
        Json::Object(members) => {
            let code_at = find_member(members, "code");
            let message_at = find_member(members, "message");
            match (code_at, message_at) {
                (Some(code_at), Some(message_at)) => match (
                    &members[code_at].1,
                    &members[message_at].1,
                ) {
                    (Json::Number(code), Json::Text(message)) => match parse_i32(code.as_str()) {
                        Some(code) => Some(WebQueryStatus::new(code, message.clone())),
                        None => None,
                    },
                    _ => None,
                },
                _ => None,
            }
        },
        _ => None,
    }
}

/// A list of elements of which a part does not decode does not decode.
proof fn lemma_decode_items_prefix<T: FromJSON>(items: Seq<Json>, k: int)
    requires
        0 <= k <= items.len(),
        decode_items::<T>(items.take(k)) is None,
    ensures
        decode_items::<T>(items) is None,
    decreases items.len(),
{
    if k < items.len() {
        assert(items.drop_last().take(k) =~= items.take(k));
        lemma_decode_items_prefix::<T>(items.drop_last(), k);
    } else {
        assert(items.take(k) =~= items);
    }
}

/// Decodes the entities of a body: those of its elements where it is an
/// array, else the one that it describes itself, as a list of one. A body of
/// which any part is no entity is a parser error.
pub fn decode_body<T: FromJSON>(body: &Json) -> (r: QueryResult<Vec<T>>)
    ensures
        match body_entities::<T>(*body) {
            Some(entities) => r matches Ok(v) && views(v@) == entities,
            None => r matches Err(e) && e@ == parser_error(),
        },
{
    let mut out: Vec<T> = Vec::new();
    match body {
        Json::Array(items) => {
            let mut i: usize = 0;
            assert(items@.take(0) =~= Seq::<Json>::empty());
            assert(views(out@) =~= Seq::<T::V>::empty());
            while i < items.len()
                invariant
                    i <= items.len(),
                    body_entities::<T>(*body) == decode_items::<T>(items@),
                    decode_items::<T>(items@.take(i as int)) == Some(views(out@)),
                decreases items.len() - i,
            {
                let ghost before = views(out@);
                proof {
                    assert(items@.take(i + 1).drop_last() =~= items@.take(i as int));
                    assert(items@.take(i + 1).last() == items@[i as int]);
                }
                match T::from_value(&items[i]) {
                    Ok(entity) => {
                        out.push(entity);
                        assert(views(out@) =~= before.push(entity@));
                    },
                    Err(e) => {
                        proof {
                            assert(entity_of::<T>(items@[i as int]) is None);
                            assert(decode_items::<T>(items@.take(i + 1)) is None);
                            lemma_decode_items_prefix::<T>(items@, i + 1);
                        }
                        return Err(e);
                    },
                }
                i += 1;
            }
            assert(items@.take(items.len() as int) =~= items@);
            Ok(out)
        },
        _ => match T::from_value(body) {
            Ok(entity) => {
                out.push(entity);
                assert(views(out@) =~= seq![entity@]);
                Ok(out)
            },
            Err(e) => Err(e),
        },
    }
}

impl Response {
    /// An envelope with the given body and status.
    pub fn new(body: Option<Json>, status: WebQueryStatus) -> (r: Self)
        ensures
            r@ == (ResponseView { body, status: status@ }),
    {
        Response { body, status }
    }

    /// The envelope that a document describes.
    pub fn from_document(document: Json) -> (r: QueryResult<Response>)
        ensures
            match envelope(document) {
                Some(response) => r matches Ok(v) && v@ == response,
                None => r matches Err(e) && e@ == parser_error(),
            },
    {
        match document {
            Json::Object(members) => {
                let mut members = members;
                let status = match find_member(&members, "status") {
                    Some(at) => read_status(&members[at].1),
                    None => None,
                };
                match status {
                    Some(status) => {
                        let body = match find_member(&members, "body") {
                            Some(at) => {
                                let found = members.swap_remove(at);
                                match found.1 {
                                    Json::Null => None,
                                    other => Some(other),
                                }
                            },
                            None => None,
                        };
                        Ok(Response { body, status })
                    },
                    None => Err(QueryError::exchange_failed("Got parser error.")),
                }
            },
            _ => Err(QueryError::exchange_failed("Got parser error.")),
        }
    }

    /// Reads the envelope out of the text of an answer.
    pub fn parse(text: &str) -> (r: QueryResult<Response>)
        ensures
            match json_document(text@) {
                Some(document) => match envelope(document) {
                    Some(response) => r matches Ok(v) && v@ == response,
                    None => r matches Err(e) && e@ == parser_error(),
                },
                None => r matches Err(e) && e@ == parser_error(),
            },
    {
        match parse_json(text) {
            Ok(document) => Response::from_document(document),
            Err(_) => Err(QueryError::exchange_failed("Got parser error.")),
        }
    }
}

/// The mathematical content of an [`HttpConn`].
pub struct HttpConnView {
    pub url: Seq<char>,
    pub api_key: Seq<char>,
    pub sid: i64,
}

/// Where the REST transport sends its requests: the base address of the
/// service, the key that it asks for, and the id of the virtual server.
#[derive(Clone, Debug)]
pub struct HttpConn {
    url: String,
    api_key: String,
    sid: i64,
}

impl View for HttpConn {
    type V = HttpConnView;

    closed spec fn view(&self) -> HttpConnView {
        HttpConnView { url: self.url@, api_key: self.api_key@, sid: self.sid }
    }
}

impl HttpConn {
    /// The target with the given base address, key and server id.
    pub fn new(server: String, api_key: String, sid: i64) -> (r: Self)
        ensures
            r@ == (HttpConnView { url: server@, api_key: api_key@, sid }),
    {
        HttpConn { url: server, api_key, sid }
    }

    /// The key that every request carries.
    pub fn api_key(&self) -> (r: &str)
        ensures
            r@ == self@.api_key,
    {
        self.api_key.as_str()
    }

    /// The address of an operation: the base address, the server id and the
    /// operation's name, joined by slashes.
    pub fn endpoint(&self, method: &str) -> (r: String)
        ensures
            r@ == self@.url + seq!['/'] + decimal(self@.sid as int) + seq!['/'] + method@,
    {
        let mut out = self.url.clone();
        out.push('/');
        push_decimal(&mut out, self.sid);
        out.push('/');
        push_str(&mut out, method);
        assert(out@ =~= self@.url + seq!['/'] + decimal(self@.sid as int) + seq!['/'] + method@);
        out
    }

    /// The query parameters of a request: those of the operation, followed
    /// by the key.
    pub fn query(&self, payload: Vec<(String, String)>) -> (r: Vec<(String, String)>)
        ensures
            pairs_view(r@) == pairs_view(payload@).push(("api-key"@, self@.api_key)),
    {
        let mut out = payload;
        out.push(("api-key".to_owned(), self.api_key.clone()));
        assert(pairs_view(out@) =~= pairs_view(payload@).push(("api-key"@, self@.api_key)));
        out
    }

    /// Decodes the answer to an operation that returns nothing.
    pub fn basic_operation(response: &str) -> (r: QueryResult<()>)
        ensures
            match basic_outcome(response@) {
                Ok(_) => r is Ok,
                Err(e) => r matches Err(err) && err@ == e,
            },
    {
        match Response::parse(response) {
            Ok(response) => response.status.into_status().into_result(()),
            Err(e) => Err(e),
        }
    }

    /// Decodes the answer to an operation whose result may be absent.
    pub fn query_operation<T: FromJSON>(response: &str) -> (r: QueryResult<Option<Vec<T>>>)
        ensures
            match query_outcome::<T>(response@) {
                Ok(rows) => r matches Ok(v) && rows_view(v) == rows,
                Err(e) => r matches Err(err) && err@ == e,
            },
    {
        let response = match Response::parse(response) {
            Ok(response) => response,
            Err(e) => {
                return Err(e);
            },
        };
        let entities = match &response.body {
            None => None,
            Some(body) => match decode_body::<T>(body) {
                Ok(entities) => Some(entities),
                Err(e) => {
                    return Err(e);
                },
            },
        };
        response.status.into_status().into_result(entities)
    }

    /// Decodes the answer to an operation that returns a list of entities:
    /// an answer without a body is an error.
    pub fn query_operation_non_error<T: FromJSON>(response: &str) -> (r: QueryResult<Vec<T>>)
        ensures
            match query_outcome::<T>(response@) {
                Ok(Some(rows)) => r matches Ok(v) && views(v@) == rows,
                Ok(None) => r matches Err(err) && err@ == empty_response(),
                Err(e) => r matches Err(err) && err@ == e,
            },
    {
        match Self::query_operation::<T>(response) {
            Ok(Some(rows)) => Ok(rows),
            Ok(None) => Err(QueryError::static_empty_response()),
            Err(e) => Err(e),
        }
    }

    /// Decodes the answer to an operation that returns one entity, which
    /// may be absent: the first entity of the body, and `None` where the
    /// body is missing or an empty array.
    pub fn query_operation_1<T: FromJSON>(response: &str) -> (r: QueryResult<Option<T>>)
        ensures
            match query_outcome::<T>(response@) {
                Ok(rows) => r matches Ok(v) && (match first_of(rows) {
                    Some(entity) => v matches Some(x) && x@ == entity,
                    None => v is None,
                }),
                Err(e) => r matches Err(err) && err@ == e,
            },
    {
        match Self::query_operation::<T>(response) {
            Ok(Some(mut rows)) => {
                if rows.len() > 0 {
                    Ok(Some(rows.swap_remove(0)))
                } else {
                    Ok(None)
                }
            },
            Ok(None) => Ok(None),
            Err(e) => Err(e),
        }
    }

    /// Decodes the answer to an operation that returns one entity: an
    /// answer without one is an error.
    pub fn query_operation_1_non_error<T: FromJSON>(response: &str) -> (r: QueryResult<T>)
        ensures
            match query_outcome::<T>(response@) {
                Ok(rows) => match first_of(rows) {
                    Some(entity) => r matches Ok(x) && x@ == entity,
                    None => r matches Err(err) && err@ == empty_response(),
                },
                Err(e) => r matches Err(err) && err@ == e,
            },
    {
        match Self::query_operation_1::<T>(response) {
            Ok(Some(entity)) => Ok(entity),
            Ok(None) => Err(QueryError::static_empty_response()),
            Err(e) => Err(e),
        }
    }
}

} // verus!
