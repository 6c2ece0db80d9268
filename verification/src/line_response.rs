//! Answers of the text protocol.
//!
//! An answer is a run of lines. The line that begins with `error ` is the
//! status line; the server ends every answer with one, and an answer without
//! one does not decode. Where the status reports success, the first line that
//! is neither blank nor a status line holds the data: rows joined by `|`, each
//! row a list of fields.

use vstd::prelude::*;
use crate::record::{decoded, pairs_view, read_fields, row_fields, FromQueryString};
use crate::status::{
    missing_result,
    missing_status,
    parser_error,
    status_of_line,
    QueryError,
    QueryErrorView,
    QueryResult,
    QueryStatus,
    QueryStatusView,
};
use crate::text::{
    contains,
    ends_with,
    lemma_split_joined,
    matches_at,
    occurs,
    occurs_at,
    pieces_view,
    split,
    split_chars,
    to_chars,
    to_text,
};

verus! {

/// A character that is dropped at either end of a line.
pub open spec fn is_blank(c: char) -> bool {
    c == ' ' || c == '\t' || c == '\r'
}

/// `s` without the blanks at its start.
pub open spec fn trim_start(s: Seq<char>) -> Seq<char>
    decreases s.len(),
{
    if s.len() > 0 && is_blank(s[0]) {
        trim_start(s.drop_first())
    } else {
        s
    }
}

/// `s` without the blanks at its end.
pub open spec fn trim_end(s: Seq<char>) -> Seq<char>
    decreases s.len(),
{
    if s.len() > 0 && is_blank(s.last()) {
        trim_end(s.drop_last())
    } else {
        s
    }
}

/// `s` without the blanks at its start and its end.
pub open spec fn trim(s: Seq<char>) -> Seq<char> {
    trim_end(trim_start(s))
}

/// The lines of an answer: the pieces between line feeds, each without the
/// blanks at its ends.
pub open spec fn lines(text: Seq<char>) -> Seq<Seq<char>> {
    Seq::new(split(text, '\n').len(), |i: int| trim(split(text, '\n')[i]))
}

/// Whether a line is a status line.
pub open spec fn is_status_line(line: Seq<char>) -> bool {
    occurs_at(line, 0, "error "@)
}

/// Whether a line holds data: it is not empty and no status line.
pub open spec fn is_data_line(line: Seq<char>) -> bool {
    line.len() > 0 && !is_status_line(line)
}

/// The first status line among `lines`.
pub open spec fn first_status(lines: Seq<Seq<char>>) -> Option<Seq<char>>
    decreases lines.len(),
{
    if lines.len() == 0 {
        None
    } else if is_status_line(lines[0]) {
        Some(lines[0])
    } else {
        first_status(lines.drop_first())
    }
}

/// The first data line among `lines`.
pub open spec fn first_data(lines: Seq<Seq<char>>) -> Option<Seq<char>>
    decreases lines.len(),
{
    if lines.len() == 0 {
        None
    } else if is_data_line(lines[0]) {
        Some(lines[0])
    } else {
        first_data(lines.drop_first())
    }
}

/// The status of an answer: what its first status line describes. An answer
/// without a status line breaks the protocol and has none, and neither has
/// one whose status line cannot be read.
pub open spec fn status_of(text: Seq<char>) -> Result<QueryStatusView, QueryErrorView> {
    match first_status(lines(text)) {
        None => Err(missing_status()),
        Some(line) => match status_of_line(line) {
            Some(status) => Ok(status),
            None => Err(parser_error()),
        },
    }
}

/// The entities that a list of rows decodes to, if every row decodes.
pub open spec fn decode_rows<T: FromQueryString>(rows: Seq<Seq<char>>) -> Option<Seq<T::V>>
    decreases rows.len(),
{
    if rows.len() == 0 {
        Some(Seq::empty())
    } else {
        match (decode_rows::<T>(rows.drop_last()), decoded::<T>(rows.last())) {
            (Some(before), Some(entity)) => Some(before.push(entity)),
            _ => None,
        }
    }
}

/// The status and the data of an answer. An answer without a status has
/// neither. An answer whose status reports a failure has no data; else its
/// data are the rows of its first data line, and `None` where it has no such
/// line.
pub open spec fn framed<T: FromQueryString>(text: Seq<char>) -> Result<
    (QueryStatusView, Option<Seq<T::V>>),
    QueryErrorView,
> {
    match status_of(text) {
        Err(e) => Err(e),
        Ok(status) => if status.id != 0 {
            Ok((status, None))
        } else {
            match first_data(lines(text)) {
                None => Ok((status, None)),
                Some(line) => match decode_rows::<T>(split(line, '|')) {
                    Some(rows) => Ok((status, Some(rows))),
                    None => Err(parser_error()),
                },
            }
        },
    }
}

/// Whether none of `lines` holds data.
pub open spec fn without_data(lines: Seq<Seq<char>>) -> bool {
    forall|i: int| 0 <= i < lines.len() ==> !is_data_line(#[trigger] lines[i])
}

/// Whether the line at `at` is the first of `lines` that holds data.
pub open spec fn first_data_at(lines: Seq<Seq<char>>, at: int) -> bool {
    &&& 0 <= at < lines.len()
    &&& is_data_line(lines[at])
    &&& without_data(lines.take(at))
}

/// The first data line is the one before which no line holds data.
pub proof fn lemma_first_data(lines: Seq<Seq<char>>)
    ensures
        without_data(lines) <==> first_data(lines) is None,
        forall|at: int| first_data_at(lines, at) ==> first_data(lines) == Some(lines[at]),
    decreases lines.len(),
{
    if lines.len() > 0 {
        let rest = lines.drop_first();
        lemma_first_data(rest);
        if is_data_line(lines[0]) {
            assert forall|at: int| first_data_at(lines, at) implies at == 0 by {
                if at > 0 {
                    assert(lines.take(at)[0] == lines[0]);
                }
            }
        } else {
            assert(without_data(rest) ==> without_data(lines)) by {
                if without_data(rest) {
                    assert forall|i: int| 0 <= i < lines.len() implies !is_data_line(
                        #[trigger] lines[i],
                    ) by {
                        if i > 0 {
                            assert(lines[i] == rest[i - 1]);
                        }
                    }
                }
            }
            assert(without_data(lines) ==> without_data(rest)) by {
                if without_data(lines) {
                    assert forall|i: int| 0 <= i < rest.len() implies !is_data_line(
                        #[trigger] rest[i],
                    ) by {
                        assert(rest[i] == lines[i + 1]);
                    }
                }
            }
            assert forall|at: int| first_data_at(lines, at) implies first_data(lines) == Some(
                lines[at],
            ) by {
                assert(at > 0);
                assert(rest[at - 1] == lines[at]);
                assert forall|i: int| 0 <= i < at - 1 implies !is_data_line(
                    #[trigger] rest.take(at - 1)[i],
                ) by {
                    assert(rest.take(at - 1)[i] == lines.take(at)[i + 1]);
                }
                assert(first_data_at(rest, at - 1));
            }
        }
    }
}

/// An answer whose status reports success has no rows exactly where none of
/// its lines holds data. Where a line holds data, before the status line or
/// after it, the status and the rows of the first such line are both
/// captured; a line that only informs counts as data like any other.
pub proof fn law_status_detection<T: FromQueryString>(text: Seq<char>, status: QueryStatusView)
    requires
        status_of(text) == Ok::<QueryStatusView, QueryErrorView>(status),
        status.id == 0,
    ensures
        without_data(lines(text)) <==> framed::<T>(text) == Ok::<
            (QueryStatusView, Option<Seq<T::V>>),
            QueryErrorView,
        >((status, None)),
        forall|at: int| #[trigger]
            first_data_at(lines(text), at) ==> framed::<T>(text) == match decode_rows::<T>(
                split(lines(text)[at], '|'),
            ) {
                Some(rows) => Ok((status, Some(rows))),
                None => Err(parser_error()),
            },
{
    lemma_first_data(lines(text));
}

/// An answer without a status line never decodes, whatever else it holds:
/// neither as a status alone, nor with data, nor as the answer to any
/// operation.
pub proof fn law_missing_status_is_an_error<T: FromQueryString>(text: Seq<char>)
    requires
        first_status(lines(text)) is None,
    ensures
        status_of(text) == Err::<QueryStatusView, QueryErrorView>(missing_status()),
        framed::<T>(text) == Err::<(QueryStatusView, Option<Seq<T::V>>), QueryErrorView>(
            missing_status(),
        ),
        basic_outcome(text) == Err::<(), QueryErrorView>(missing_status()),
        query_outcome::<T>(text) == Err::<Seq<T::V>, QueryErrorView>(missing_status()),
{
}

/// An answer whose status reports a failure has no rows, whatever its other
/// lines hold.
pub proof fn law_failure_has_no_rows<T: FromQueryString>(text: Seq<char>, status: QueryStatusView)
    requires
        status_of(text) == Ok::<QueryStatusView, QueryErrorView>(status),
        status.id != 0,
    ensures
        framed::<T>(text) == Ok::<(QueryStatusView, Option<Seq<T::V>>), QueryErrorView>(
            (status, None),
        ),
{
}

/// The lines of two answers joined by a line feed are the lines of the first
/// and then those of the second.
pub proof fn law_lines_of_joined(head: Seq<char>, tail: Seq<char>)
    ensures
        lines(head.push('\n') + tail) == lines(head) + lines(tail),
{
    lemma_split_joined(head, tail, '\n');
    assert(lines(head.push('\n') + tail) =~= lines(head) + lines(tail));
}

/// The views of a list of entities.
pub open spec fn views<T: View>(list: Seq<T>) -> Seq<T::V> {
    Seq::new(list.len(), |i: int| list[i]@)
}

/// The view of a list of entities that may be absent.
pub open spec fn rows_view<T: View>(rows: Option<Vec<T>>) -> Option<Seq<T::V>> {
    match rows {
        Some(rows) => Some(views(rows@)),
        None => None,
    }
}

/// Finds the bounds of a line without the blanks at its ends.
fn trim_bounds(line: &Vec<char>) -> (r: (usize, usize))
    ensures
        r.0 <= r.1 <= line.len(),
        line@.subrange(r.0 as int, r.1 as int) == trim(line@),
{
    let mut from: usize = 0;
    assert(line@.skip(0) =~= line@);
    while from < line.len() && (line[from] == ' ' || line[from] == '\t' || line[from] == '\r')
        invariant
            from <= line.len(),
            trim_start(line@) == trim_start(line@.skip(from as int)),
        decreases line.len() - from,
    {
        assert(line@.skip(from as int).drop_first() =~= line@.skip(from + 1));
        from += 1;
    }
    let ghost rest = line@.skip(from as int);
    assert(trim_start(line@) == rest);
    let mut to: usize = line.len();
    assert(rest.take(to - from) =~= rest);
    while to > from && (line[to - 1] == ' ' || line[to - 1] == '\t' || line[to - 1] == '\r')
        invariant
            from <= to <= line.len(),
            rest == line@.skip(from as int),
            trim_end(rest) == trim_end(rest.take(to - from)),
        decreases to - from,
    {
        assert(rest.take(to - from).drop_last() =~= rest.take(to - from - 1));
        to -= 1;
    }
    assert(rest.take(to - from) =~= line@.subrange(from as int, to as int));
    (from, to)
}

/// The lines of an answer.
fn trimmed_lines(text: &str) -> (r: Vec<Vec<char>>)
    ensures
        pieces_view(r@) == lines(text@),
{
    let chars = to_chars(text);
    assert(chars@.subrange(0, chars.len() as int) =~= text@);
    let raw = split_chars(&chars, 0, chars.len(), '\n');
    let mut out: Vec<Vec<char>> = Vec::new();
    let mut i: usize = 0;
    while i < raw.len()
        invariant
            i <= raw.len(),
            pieces_view(raw@) == split(text@, '\n'),
            out.len() == i,
            forall|j: int| 0 <= j < i ==> out@[j]@ == trim(raw@[j]@),
        decreases raw.len() - i,
    {
        let (from, to) = trim_bounds(&raw[i]);
        let mut line: Vec<char> = Vec::new();
        let mut k: usize = from;
        while k < to
            invariant
                from <= k <= to <= raw@[i as int].len(),
                i < raw.len(),
                line@ == raw@[i as int]@.subrange(from as int, k as int),
            decreases to - k,
        {
            line.push(raw[i][k]);
            assert(raw@[i as int]@.subrange(from as int, k + 1) =~= raw@[i as int]@.subrange(
                from as int,
                k as int,
            ).push(raw@[i as int]@[k as int]));
            k += 1;
        }
        out.push(line);
        i += 1;
    }
    assert(pieces_view(out@) =~= lines(text@)) by {
        assert forall|j: int| 0 <= j < out.len() implies pieces_view(out@)[j] == lines(text@)[j] by {
            assert(pieces_view(raw@)[j] == raw@[j]@);
        }
    }
    out
}

/// Tests whether a line is a status line.
fn status_line(line: &Vec<char>) -> (r: bool)
    ensures
        r == is_status_line(line@),
{
    let marker = to_chars("error ");
    matches_at(line, 0, &marker)
}

/// Reads the status of an answer. An answer without a status line is an
/// error, and so is one whose status line cannot be read.
pub fn decode_status(content: &str) -> (r: QueryResult<QueryStatus>)
    ensures
        match status_of(content@) {
            Ok(status) => r matches Ok(s) && s@ == status,
            Err(e) => r matches Err(err) && err@ == e,
        },
{
    let all = trimmed_lines(content);
    let ghost whole = lines(content@);
    let mut i: usize = 0;
    assert(whole.skip(0) =~= whole);
    while i < all.len()
        invariant
            i <= all.len(),
            pieces_view(all@) == whole,
            whole == lines(content@),
            first_status(whole) == first_status(whole.skip(i as int)),
        decreases all.len() - i,
    {
        proof {
            assert(whole.skip(i as int).drop_first() =~= whole.skip(i + 1));
            assert(whole.skip(i as int)[0] == all@[i as int]@);
        }
        if status_line(&all[i]) {
            let line = to_text(&all[i], 0, all[i].len());
            assert(line@ =~= all@[i as int]@);
            return QueryStatus::try_from(line.as_str());
        }
        i += 1;
    }
    Err(QueryError::exchange_failed("Can't find status line."))
}

/// A list of rows of which a part does not decode does not decode.
proof fn lemma_decode_rows_prefix<T: FromQueryString>(rows: Seq<Seq<char>>, k: int)
    requires
        0 <= k <= rows.len(),
        decode_rows::<T>(rows.take(k)) is None,
    ensures
        decode_rows::<T>(rows) is None,
    decreases rows.len(),
{
    if k < rows.len() {
        assert(rows.drop_last().take(k) =~= rows.take(k));
        lemma_decode_rows_prefix::<T>(rows.drop_last(), k);
    } else {
        assert(rows.take(k) =~= rows);
    }
}

/// Decodes every row of a data line.
fn decode_line<T: FromQueryString>(line: &Vec<char>) -> (r: QueryResult<Vec<T>>)
    ensures
        match decode_rows::<T>(split(line@, '|')) {
            Some(rows) => r matches Ok(v) && views(v@) == rows,
            None => r matches Err(e) && e@ == parser_error(),
        },
{
    assert(line@.subrange(0, line.len() as int) =~= line@);
    let rows = split_chars(line, 0, line.len(), '|');
    let ghost all = split(line@, '|');
    let mut out: Vec<T> = Vec::new();
    let mut i: usize = 0;
    assert(all.take(0) =~= Seq::<Seq<char>>::empty());
    assert(views(out@) =~= Seq::<T::V>::empty());
    while i < rows.len()
        invariant
            i <= rows.len(),
            pieces_view(rows@) == all,
            all == split(line@, '|'),
            decode_rows::<T>(all.take(i as int)) == Some(views(out@)),
        decreases rows.len() - i,
    {
        let row = to_text(&rows[i], 0, rows[i].len());
        proof {
            assert(row@ =~= rows@[i as int]@);
            assert(all[i as int] == rows@[i as int]@);
            assert(all.take(i + 1).drop_last() =~= all.take(i as int));
            assert(all.take(i + 1).last() == row@);
        }
        let ghost before = views(out@);
        match T::from_query(row.as_str()) {
            Ok(entity) => {
                out.push(entity);
                assert(views(out@) =~= before.push(entity@));
            },
            Err(e) => {
                proof {
                    assert(decoded::<T>(row@) is None);
                    assert(decode_rows::<T>(all.take(i + 1)) is None);
                    lemma_decode_rows_prefix::<T>(all, i + 1);
                }
                return Err(e);
            },
        }
        i += 1;
    }
    assert(all.take(rows.len() as int) =~= all);
    Ok(out)
}

/// Reads the status and the data of an answer. An answer without a status
/// line is an error, whatever else it holds.
pub fn decode_status_with_result<T: FromQueryString>(data: &str) -> (r: QueryResult<
    (QueryStatus, Option<Vec<T>>),
>)
    ensures
        match framed::<T>(data@) {
            Ok((status, rows)) => r matches Ok((s, v)) && s@ == status && rows_view(v) == rows,
            Err(e) => r matches Err(err) && err@ == e,
        },
{
    let status = match decode_status(data) {
        Ok(status) => status,
        Err(e) => {
            return Err(e);
        },
    };
    if !status.is_ok() {
        return Ok((status, None));
    }
    let all = trimmed_lines(data);
    let ghost whole = lines(data@);
    let mut i: usize = 0;
    assert(whole.skip(0) =~= whole);
    while i < all.len()
        invariant
            i <= all.len(),
            pieces_view(all@) == whole,
            whole == lines(data@),
            first_data(whole) == first_data(whole.skip(i as int)),
            status_of(data@) == Ok::<QueryStatusView, QueryErrorView>(status@),
            status@.id == 0,
        decreases all.len() - i,
    {
        proof {
            assert(whole.skip(i as int).drop_first() =~= whole.skip(i + 1));
            assert(whole.skip(i as int)[0] == all@[i as int]@);
        }
        if all[i].len() > 0 && !status_line(&all[i]) {
            assert(first_data(whole) == Some(all@[i as int]@));
            return match decode_line::<T>(&all[i]) {
                Ok(rows) => Ok((status, Some(rows))),
                Err(e) => Err(e),
            };
        }
        i += 1;
    }
    Ok((status, None))
}

/// What an operation without a result makes of an answer: the answer must
/// hold a status, and the status decides.
pub open spec fn basic_outcome(text: Seq<char>) -> Result<(), QueryErrorView> {
    match status_of(text) {
        Err(e) => Err(e),
        Ok(status) => if status.id == 0 {
            Ok(())
        } else {
            Err(QueryErrorView { code: status.id, message: status.msg })
        },
    }
}

/// What an operation with a result makes of an answer: the answer must hold
/// a status; a status that reports a failure is the error; and an answer that
/// reports success must hold a data line.
pub open spec fn query_outcome<T: FromQueryString>(text: Seq<char>) -> Result<
    Seq<T::V>,
    QueryErrorView,
> {
    match framed::<T>(text) {
        Err(e) => Err(e),
        Ok((status, rows)) => if status.id != 0 {
            Err(QueryErrorView { code: status.id, message: status.msg })
        } else {
            match rows {
                Some(rows) => Ok(rows),
                None => Err(missing_result()),
            }
        },
    }
}

/// Decodes the answer to an operation that returns nothing.
pub fn basic_operation(answer: &str) -> (r: QueryResult<()>)
    ensures
        match basic_outcome(answer@) {
            Ok(_) => r is Ok,
            Err(e) => r matches Err(err) && err@ == e,
        },
{
    match decode_status(answer) {
        Err(e) => Err(e),
        Ok(status) => status.into_result(()),
    }
}

/// Decodes the answer to an operation that returns a list of entities.
pub fn query_operation_non_error<T: FromQueryString>(answer: &str) -> (r: QueryResult<Vec<T>>)
    ensures
        match query_outcome::<T>(answer@) {
            Ok(rows) => r matches Ok(v) && views(v@) == rows,
            Err(e) => r matches Err(err) && err@ == e,
        },
{
    match decode_status_with_result::<T>(answer) {
        Err(e) => Err(e),
        Ok((status, rows)) => {
            if !status.is_ok() {
                return Err(status.into_err());
            }
            match rows {
                Some(rows) => Ok(rows),
                None => Err(QueryError::exchange_failed("Can't find result line.")),
            }
        },
    }
}

/// Decodes the answer to an operation whose result may be absent. On this
/// transport a successful answer always holds its result, so that a success
/// is never `None`.
pub fn query_operation<T: FromQueryString>(answer: &str) -> (r: QueryResult<Option<Vec<T>>>)
    ensures
        match query_outcome::<T>(answer@) {
            Ok(rows) => r matches Ok(Some(v)) && views(v@) == rows,
            Err(e) => r matches Err(err) && err@ == e,
        },
{
    match query_operation_non_error::<T>(answer) {
        Ok(rows) => Ok(Some(rows)),
        Err(e) => Err(e),
    }
}

/// Rows decode one for one: a line of `n` rows gives `n` entities or none.
pub proof fn law_rows_decode_one_for_one<T: FromQueryString>(rows: Seq<Seq<char>>)
    ensures
        decode_rows::<T>(rows) matches Some(v) ==> v.len() == rows.len(),
    decreases rows.len(),
{
    if rows.len() > 0 {
        law_rows_decode_one_for_one::<T>(rows.drop_last());
    }
}

/// What an operation with a single result makes of an answer: the first
/// entity of what [`query_outcome`] gives.
pub open spec fn single_outcome<T: FromQueryString>(text: Seq<char>) -> Result<
    T::V,
    QueryErrorView,
> {
    match query_outcome::<T>(text) {
        Ok(rows) => if rows.len() > 0 {
            Ok(rows[0])
        } else {
            Err(missing_result())
        },
        Err(e) => Err(e),
    }
}

/// Decodes the answer to an operation that returns one entity.
pub fn query_operation_1_non_error<T: FromQueryString>(answer: &str) -> (r: QueryResult<T>)
    ensures
        match single_outcome::<T>(answer@) {
            Ok(entity) => r matches Ok(v) && v@ == entity,
            Err(e) => r matches Err(err) && err@ == e,
        },
{
    match query_operation_non_error::<T>(answer) {
        Ok(mut rows) => {
            if rows.len() > 0 {
                let entity = rows.swap_remove(0);
                Ok(entity)
            } else {
                Err(QueryError::exchange_failed("Can't find result line."))
            }
        },
        Err(e) => Err(e),
    }
}

/// Decodes the answer to an operation that returns one entity, which may be
/// absent. On this transport a successful answer always holds its result.
pub fn query_operation_1<T: FromQueryString>(answer: &str) -> (r: QueryResult<Option<T>>)
    ensures
        match single_outcome::<T>(answer@) {
            Ok(entity) => r matches Ok(Some(v)) && v@ == entity,
            Err(e) => r matches Err(err) && err@ == e,
        },
{
    match query_operation_1_non_error::<T>(answer) {
        Ok(entity) => Ok(Some(entity)),
        Err(e) => Err(e),
    }
}

/// The fields of every row of a list, if the parser reads every row.
pub open spec fn rows_fields(rows: Seq<Seq<char>>) -> Option<Seq<Seq<(Seq<char>, Seq<char>)>>>
    decreases rows.len(),
{
    if rows.len() == 0 {
        Some(Seq::empty())
    } else {
        match (rows_fields(rows.drop_last()), row_fields(rows.last())) {
            (Some(before), Some(fields)) => Some(before.push(fields)),
            _ => None,
        }
    }
}

/// The fields of a list of rows, as character sequences.
pub open spec fn rows_pairs_view(rows: Seq<Vec<(String, String)>>) -> Seq<
    Seq<(Seq<char>, Seq<char>)>,
> {
    Seq::new(rows.len(), |i: int| pairs_view(rows[i]@))
}

/// A list of rows of which a part is not read is not read.
proof fn lemma_rows_fields_prefix(rows: Seq<Seq<char>>, k: int)
    requires
        0 <= k <= rows.len(),
        rows_fields(rows.take(k)) is None,
    ensures
        rows_fields(rows) is None,
    decreases rows.len(),
{
    if k < rows.len() {
        assert(rows.drop_last().take(k) =~= rows.take(k));
        lemma_rows_fields_prefix(rows.drop_last(), k);
    } else {
        assert(rows.take(k) =~= rows);
    }
}

/// Reads a data line as records without a declared shape: the rows between
/// `|`, each as its list of fields.
pub fn decode_records(line: &str) -> (r: QueryResult<Vec<Vec<(String, String)>>>)
    ensures
        match rows_fields(split(line@, '|')) {
            Some(rows) => r matches Ok(v) && rows_pairs_view(v@) == rows,
            None => r matches Err(e) && e@ == parser_error(),
        },
{
    let chars = to_chars(line);
    assert(chars@.subrange(0, chars.len() as int) =~= line@);
    let rows = split_chars(&chars, 0, chars.len(), '|');
    let ghost all = split(line@, '|');
    let mut out: Vec<Vec<(String, String)>> = Vec::new();
    let mut i: usize = 0;
    assert(all.take(0) =~= Seq::<Seq<char>>::empty());
    assert(rows_pairs_view(out@) =~= Seq::<Seq<(Seq<char>, Seq<char>)>>::empty());
    while i < rows.len()
        invariant
            i <= rows.len(),
            pieces_view(rows@) == all,
            all == split(line@, '|'),
            rows_fields(all.take(i as int)) == Some(rows_pairs_view(out@)),
        decreases rows.len() - i,
    {
        let row = to_text(&rows[i], 0, rows[i].len());
        proof {
            assert(row@ =~= rows@[i as int]@);
            assert(all[i as int] == rows@[i as int]@);
            assert(all.take(i + 1).drop_last() =~= all.take(i as int));
            assert(all.take(i + 1).last() == row@);
        }
        let ghost before = rows_pairs_view(out@);
        match read_fields(row.as_str()) {
            Some(fields) => {
                out.push(fields);
                assert(rows_pairs_view(out@) =~= before.push(pairs_view(fields@)));
            },
            None => {
                proof {
                    assert(rows_fields(all.take(i + 1)) is None);
                    lemma_rows_fields_prefix(all, i + 1);
                }
                return Err(QueryError::exchange_failed("Got parser error."));
            },
        }
        i += 1;
    }
    assert(all.take(rows.len() as int) =~= all);
    Ok(out)
}

/// Whether what was read so far is a whole answer: it holds `error id=` and
/// ends with a line feed and a carriage return.
pub open spec fn is_complete(text: Seq<char>) -> bool {
    occurs(text, "error id="@) && ends_with(text, seq!['\n', '\r'])
}

/// Tests whether what was read so far is a whole answer, so that reading can
/// stop before the time is out.
pub fn response_complete(buffer: &str) -> (r: bool)
    ensures
        r == is_complete(buffer@),
{
    let chars = to_chars(buffer);
    let marker = to_chars("error id=");
    let mut end: Vec<char> = Vec::new();
    end.push('\n');
    end.push('\r');
    assert(end@ =~= seq!['\n', '\r']);
    if chars.len() < 2 {
        return false;
    }
    contains(&chars, &marker) && matches_at(&chars, chars.len() - 2, &end)
}

} // verus!
