//! Records of the text protocol: a row such as `cid=5 channel_name=Lobby` is
//! a list of fields, and each entity is built from the fields it declares.
//!
//! Cutting a row into fields, and undoing the escape sequences in them, is the
//! work of the `serde_teamspeak_querystring` crate. What the parser makes of a
//! row is therefore a named result, [`record_pairs`]; what an entity makes of
//! a given list of fields is stated exactly. A row in which an escape sequence
//! is cut short never reaches the parser: it is rejected here.

use vstd::prelude::*;
use crate::escape::{closed_escapes, has_closed_escapes};
use crate::status::{parser_error, QueryError, QueryResult};
use crate::text::{i32_value, i64_value, parse_i32, parse_i64};

verus! {

/// The error of the outside parser; it is carried, never inspected.
#[verifier::external_type_specification]
#[verifier::external_body]
pub struct ExQueryStringError(serde_teamspeak_querystring::Error);

/// The fields that `serde_teamspeak_querystring` reads out of a row, each a
/// key with its value, ordered by key; `None` where the parser rejects the row.
pub uninterp spec fn record_pairs(row: Seq<char>) -> Option<Seq<(Seq<char>, Seq<char>)>>;

/// The keys and values of a list of fields, as character sequences.
pub open spec fn pairs_view(fields: Seq<(String, String)>) -> Seq<(Seq<char>, Seq<char>)> {
    Seq::new(fields.len(), |i: int| (fields[i].0@, fields[i].1@))
}

/// Calls `serde_teamspeak_querystring::from_str` to read a row as a map from
/// key to value, and lists the map's entries in the order of their keys.
///
/// The contract claims only that the outcome is a function of the row: the
/// parser keeps no state and reads nothing but its argument.
///
/// The parser cuts a row at spaces and each piece at its first `=`, and then
/// undoes the escape sequences of every part by itself. A part that ends in
/// a lone backslash makes it read behind the part's end, and a backslash
/// before a character of several bytes leaves text that is not UTF-8, which
/// it cannot report without reading behind the end either. Both stop the
/// program, so `requires` admits no row that holds one.
#[verifier::external_body]
fn fields_of(row: &str) -> (r: Result<Vec<(String, String)>, serde_teamspeak_querystring::Error>)
    requires
        closed_escapes(row@),
    ensures
        r is Ok == record_pairs(row@) is Some,
        r matches Ok(fields) ==> record_pairs(row@) == Some(pairs_view(fields@)),
{
    serde_teamspeak_querystring::from_str::<std::collections::BTreeMap<String, String>>(row)
        .map(|fields| fields.into_iter().collect())
}

/// The fields of a row: what the parser reads out of it; `None` where an
/// escape sequence of the row is cut short, or the parser rejects the row.
pub open spec fn row_fields(row: Seq<char>) -> Option<Seq<(Seq<char>, Seq<char>)>> {
    if closed_escapes(row) {
        record_pairs(row)
    } else {
        None
    }
}

/// Reads the fields of a row.
pub fn read_fields(row: &str) -> (r: Option<Vec<(String, String)>>)
    ensures
        match row_fields(row@) {
            Some(fields) => r matches Some(v) && pairs_view(v@) == fields,
            None => r is None,
        },
{
    if !has_closed_escapes(row) {
        return None;
    }
    match fields_of(row) {
        Ok(fields) => Some(fields),
        Err(_) => None,
    }
}

/// The value of the first field with the given key.
pub open spec fn field(fields: Seq<(Seq<char>, Seq<char>)>, key: Seq<char>) -> Option<Seq<char>>
    decreases fields.len(),
{
    if fields.len() == 0 {
        None
    } else if fields[0].0 == key {
        Some(fields[0].1)
    } else {
        field(fields.drop_first(), key)
    }
}

/// The 64-bit integer that the field with the given key writes.
pub open spec fn int_of(fields: Seq<(Seq<char>, Seq<char>)>, key: Seq<char>) -> Option<i64> {
    match field(fields, key) {
        Some(value) => i64_value(value),
        None => None,
    }
}

/// The 32-bit integer that the field with the given key writes.
pub open spec fn int32_of(fields: Seq<(Seq<char>, Seq<char>)>, key: Seq<char>) -> Option<i32> {
    match field(fields, key) {
        Some(value) => i32_value(value),
        None => None,
    }
}

/// Finds the value of the first field with the given key.
pub fn find_field<'a>(fields: &'a Vec<(String, String)>, key: &str) -> (r: Option<&'a String>)
    ensures
        r is Some == field(pairs_view(fields@), key@) is Some,
        r matches Some(value) ==> field(pairs_view(fields@), key@) == Some(value@),
{
    let ghost all = pairs_view(fields@);
    let wanted: String = key.to_owned();
    let mut i: usize = 0;
    assert(all.skip(0) =~= all);
    while i < fields.len()
        invariant
            i <= fields.len(),
            all == pairs_view(fields@),
            wanted@ == key@,
            field(all, key@) == field(all.skip(i as int), key@),
        decreases fields.len() - i,
    {
        proof {
            assert(all.skip(i as int).drop_first() =~= all.skip(i + 1));
            assert(all.skip(i as int)[0] == all[i as int]);
        }
        if fields[i].0 == wanted {
            return Some(&fields[i].1);
        }
        i += 1;
    }
    None
}

/// Reads the field with the given key as a 64-bit integer.
pub fn int_field(fields: &Vec<(String, String)>, key: &str) -> (r: Option<i64>)
    ensures
        r == int_of(pairs_view(fields@), key@),
{
    match find_field(fields, key) {
        Some(value) => parse_i64(value.as_str()),
        None => None,
    }
}

/// Reads the field with the given key as a 32-bit integer.
pub fn int32_field(fields: &Vec<(String, String)>, key: &str) -> (r: Option<i32>)
    ensures
        r == int32_of(pairs_view(fields@), key@),
{
    match find_field(fields, key) {
        Some(value) => parse_i32(value.as_str()),
        None => None,
    }
}

/// An entity that can be read from one row of the text protocol.
pub trait FromQueryString: Sized + View {
    /// The entity that a list of fields describes: every field it declares,
    /// in its declared type; fields it does not declare are ignored.
    spec fn record(fields: Seq<(Seq<char>, Seq<char>)>) -> Option<Self::V>;

    /// Builds the entity from a list of fields.
    fn from_fields(fields: &Vec<(String, String)>) -> (r: Option<Self>)
        ensures
            r is Some == Self::record(pairs_view(fields@)) is Some,
            r matches Some(entity) ==> Self::record(pairs_view(fields@)) == Some(entity@),
    ;

    /// Decodes one row.
    fn from_query(data: &str) -> (r: QueryResult<Self>)
        ensures
            match row_fields(data@) {
                Some(fields) => match Self::record(fields) {
                    Some(entity) => r matches Ok(e) && e@ == entity,
                    None => r matches Err(e) && e@ == parser_error(),
                },
                None => r matches Err(e) && e@ == parser_error(),
            },
    {
        match read_fields(data) {
            Some(fields) => match Self::from_fields(&fields) {
                Some(entity) => Ok(entity),
                None => Err(QueryError::exchange_failed("Got parser error.")),
            },
            None => Err(QueryError::exchange_failed("Got parser error.")),
        }
    }
}

/// What a row decodes to: the entity that its fields describe; `None` where
/// the row is rejected, or lacks a field that the entity declares, or holds
/// one that does not fit its declared type.
pub open spec fn decoded<T: FromQueryString>(row: Seq<char>) -> Option<T::V> {
    match row_fields(row) {
        Some(fields) => T::record(fields),
        None => None,
    }
}

} // verus!
