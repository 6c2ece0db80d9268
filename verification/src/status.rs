//! The status that the server attaches to every answer, and the error that
//! every operation of the capability interface can return.
//!
//! A status code of `0` is success; any other code is a failure that carries a
//! message. Two negative codes never come from the server: `-1` for an answer
//! that lacks the result it should hold, `-2` for an exchange that could not be
//! decoded or carried out.

use vstd::prelude::*;
use vstd::std_specs::convert::FromSpecImpl;
use crate::record::{
    field,
    find_field,
    int32_field,
    int32_of,
    pairs_view,
    read_fields,
    row_fields,
};
use crate::text::{decimal, find, first_occurrence, occurs_at, push_decimal, to_chars, to_text};

verus! {

/// The code of a successful status.
pub const STATUS_OK: i32 = 0;

/// The code of an answer that holds no result where one was expected.
pub const CODE_EMPTY_RESPONSE: i32 = -1;

/// The code of an exchange that failed before a status could be read.
pub const CODE_EXCHANGE_FAILED: i32 = -2;

/// What an operation returns: its result, or the error that stopped it.
pub type QueryResult<T> = Result<T, QueryError>;

/// The mathematical content of a [`QueryError`].
pub struct QueryErrorView {
    pub code: i32,
    pub message: Seq<char>,
}

/// The failure of an operation: the server's status code, kept as it came,
/// and its message.
#[derive(Clone, Debug)]
pub struct QueryError {
    code: i32,
    message: String,
}

impl View for QueryError {
    type V = QueryErrorView;

    closed spec fn view(&self) -> QueryErrorView {
        QueryErrorView { code: self.code, message: self.message@ }
    }
}

/// The error of an answer without the result it should hold.
pub open spec fn empty_response() -> QueryErrorView {
    QueryErrorView { code: CODE_EMPTY_RESPONSE, message: "Expect result but none found."@ }
}

/// The error of an answer without a status line.
pub open spec fn missing_status() -> QueryErrorView {
    QueryErrorView { code: CODE_EXCHANGE_FAILED, message: "Can't find status line."@ }
}

/// The error of a successful answer without a data line.
pub open spec fn missing_result() -> QueryErrorView {
    QueryErrorView { code: CODE_EXCHANGE_FAILED, message: "Can't find result line."@ }
}

/// The error of text that does not decode into the record asked for.
pub open spec fn parser_error() -> QueryErrorView {
    QueryErrorView { code: CODE_EXCHANGE_FAILED, message: "Got parser error."@ }
}

impl Default for QueryError {
    fn default() -> (r: Self)
        ensures
            r@ == (QueryErrorView { code: 0, message: Seq::empty() }),
    {
        QueryError { code: 0, message: String::new() }
    }
}

impl QueryError {
    /// An error with the given code and message.
    pub fn new(code: i32, message: String) -> (r: Self)
        ensures
            r@ == (QueryErrorView { code, message: message@ }),
    {
        QueryError { code, message }
    }

    /// The error of an answer without the result it should hold.
    pub fn static_empty_response() -> (r: Self)
        ensures
            r@ == empty_response(),
    {
        QueryError { code: CODE_EMPTY_RESPONSE, message: "Expect result but none found.".to_owned() }
    }

    /// The error of an exchange that failed before a status could be read,
    /// with a message that says how.
    pub fn exchange_failed(message: &str) -> (r: Self)
        ensures
            r@ == (QueryErrorView { code: CODE_EXCHANGE_FAILED, message: message@ }),
    {
        QueryError { code: CODE_EXCHANGE_FAILED, message: message.to_owned() }
    }

    /// The status code.
    pub fn code(&self) -> (r: i32)
        ensures
            r == self@.code,
    {
        self.code
    }

    /// The message.
    pub fn message(&self) -> (r: &String)
        ensures
            r@ == self@.message,
    {
        &self.message
    }

    /// The message followed by the code in round brackets.
    pub fn to_string(&self) -> (r: String)
        ensures
            r@ == self@.message + seq!['('] + decimal(self@.code as int) + seq![')'],
    {
        let mut out = self.message.clone();
        out.push('(');
        push_decimal(&mut out, self.code as i64);
        out.push(')');
        assert(out@ =~= self@.message + seq!['('] + decimal(self@.code as int) + seq![')']);
        out
    }
}

/// The mathematical content of a [`QueryStatus`].
pub struct QueryStatusView {
    pub id: i32,
    pub msg: Seq<char>,
}

/// The status of an answer on either transport.
#[derive(Clone, Debug)]
pub struct QueryStatus {
    id: i32,
    msg: String,
}

impl View for QueryStatus {
    type V = QueryStatusView;

    closed spec fn view(&self) -> QueryStatusView {
        QueryStatusView { id: self.id, msg: self.msg@ }
    }
}

impl Default for QueryStatus {
    fn default() -> (r: Self)
        ensures
            r@ == (QueryStatusView { id: 0, msg: "ok"@ }),
    {
        QueryStatus { id: STATUS_OK, msg: "ok".to_owned() }
    }
}

/// The status that the fields of a status line describe: `id` as a 32-bit
/// integer and `msg` as text, both required.
pub open spec fn status_record(fields: Seq<(Seq<char>, Seq<char>)>) -> Option<QueryStatusView> {
    match (int32_of(fields, "id"@), field(fields, "msg"@)) {
        (Some(id), Some(msg)) => Some(QueryStatusView { id, msg }),
        _ => None,
    }
}

/// The status that a status line describes: what follows its first
/// `"error "`, read as a list of fields.
pub open spec fn status_of_line(line: Seq<char>) -> Option<QueryStatusView> {
    match first_occurrence(line, "error "@) {
        Some(at) => match row_fields(line.skip(at + 6)) {
            Some(fields) => status_record(fields),
            None => None,
        },
        None => None,
    }
}

impl QueryStatus {
    /// A status with the given code and message.
    pub fn new(id: i32, msg: String) -> (r: Self)
        ensures
            r@ == (QueryStatusView { id, msg: msg@ }),
    {
        QueryStatus { id, msg }
    }

    /// The status code.
    pub fn id(&self) -> (r: i32)
        ensures
            r == self@.id,
    {
        self.id
    }

    /// The message.
    pub fn msg(&self) -> (r: &String)
        ensures
            r@ == self@.msg,
    {
        &self.msg
    }

    /// Whether the status reports success.
    pub fn is_ok(&self) -> (r: bool)
        ensures
            r == (self@.id == 0),
    {
        self.id == STATUS_OK
    }

    /// The error with this status's code and message.
    pub fn into_err(self) -> (r: QueryError)
        ensures
            r@ == (QueryErrorView { code: self@.id, message: self@.msg }),
    {
        QueryError { code: self.id, message: self.msg }
    }

    /// `ret` where the status reports success, else the status as an error.
    pub fn into_result<T>(self, ret: T) -> (r: QueryResult<T>)
        ensures
            self@.id == 0 ==> r == Ok::<T, QueryError>(ret),
            self@.id != 0 ==> (r matches Err(e) && e@ == (QueryErrorView {
                code: self@.id,
                message: self@.msg,
            })),
    {
        if self.id == STATUS_OK {
            return Ok(ret);
        }
        Err(self.into_err())
    }

    /// The status that a list of fields describes: `id` as a 32-bit integer
    /// and `msg` as text; `None` where either is missing or `id` is no such
    /// integer. Other fields are ignored.
    pub fn from_fields(fields: &Vec<(String, String)>) -> (r: Option<QueryStatus>)
        ensures
            match status_record(pairs_view(fields@)) {
                Some(s) => r matches Some(q) && q@ == s,
                None => r is None,
            },
    {
        let id = int32_field(fields, "id");
        let msg = find_field(fields, "msg");
        match (id, msg) {
            (Some(id), Some(msg)) => Some(QueryStatus { id, msg: msg.clone() }),
            _ => None,
        }
    }

    /// Reads the status out of a status line: the text behind the first
    /// `"error "` must hold an `id` and a `msg`.
    pub fn try_from(value: &str) -> (r: QueryResult<QueryStatus>)
        ensures
            match status_of_line(value@) {
                Some(status) => r matches Ok(s) && s@ == status,
                None => r matches Err(e) && e@ == parser_error(),
            },
    {
        let chars = to_chars(value);
        let marker = to_chars("error ");
        proof {
            reveal_strlit("error ");
        }
        let found = find(&chars, &marker);
        if found.is_none() {
            return Err(QueryError::exchange_failed("Got parser error."));
        }
        let at: usize = found.unwrap();
        assert(marker@.len() == 6);
        assert(occurs_at(chars@, at as int, marker@));
        assert(at + 6 <= chars.len());
        let rest = to_text(&chars, at + 6, chars.len());
        assert(rest@ =~= value@.skip(at + 6));
        match read_fields(rest.as_str()) {
            Some(fields) => match QueryStatus::from_fields(&fields) {
                Some(status) => Ok(status),
                None => Err(QueryError::exchange_failed("Got parser error.")),
            },
            None => Err(QueryError::exchange_failed("Got parser error.")),
        }
    }
}

impl From<QueryStatus> for QueryError {
    /// The error with the status's code and message.
    fn from(status: QueryStatus) -> (r: Self)
        ensures
            r@ == (QueryErrorView { code: status@.id, message: status@.msg }),
    {
        QueryError { code: status.id, message: status.msg }
    }
}

impl FromSpecImpl<QueryStatus> for QueryError {
    open spec fn obeys_from_spec() -> bool {
        true
    }

    closed spec fn from_spec(status: QueryStatus) -> Self {
        QueryError { code: status.id, message: status.msg }
    }
}

/// The mathematical content of a [`WebQueryStatus`].
pub struct WebQueryStatusView {
    pub code: i32,
    pub message: Seq<char>,
}

/// The status as the REST envelope spells it.
#[derive(Clone, Debug)]
pub struct WebQueryStatus {
    code: i32,
    message: String,
}

impl View for WebQueryStatus {
    type V = WebQueryStatusView;

    closed spec fn view(&self) -> WebQueryStatusView {
        WebQueryStatusView { code: self.code, message: self.message@ }
    }
}

impl WebQueryStatus {
    /// A status with the given code and message.
    pub fn new(code: i32, message: String) -> (r: Self)
        ensures
            r@ == (WebQueryStatusView { code, message: message@ }),
    {
        WebQueryStatus { code, message }
    }

    /// The same status in the shape that both transports share.
    pub fn into_status(self) -> (r: QueryStatus)
        ensures
            r@ == (QueryStatusView { id: self@.code, msg: self@.message }),
    {
        QueryStatus { id: self.code, msg: self.message }
    }
}

impl From<WebQueryStatus> for QueryStatus {
    /// The same status in the shape that both transports share.
    fn from(status: WebQueryStatus) -> (r: Self)
        ensures
            r@ == (QueryStatusView { id: status@.code, msg: status@.message }),
    {
        QueryStatus { id: status.code, msg: status.message }
    }
}

impl FromSpecImpl<WebQueryStatus> for QueryStatus {
    open spec fn obeys_from_spec() -> bool {
        true
    }

    closed spec fn from_spec(status: WebQueryStatus) -> Self {
        QueryStatus { id: status.code, msg: status.message }
    }
}

} // verus!
