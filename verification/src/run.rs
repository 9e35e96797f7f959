use vstd::prelude::*;

use crate::decode::{decode_column, decode_model, Column};
use crate::encode::encode_all;
use crate::rewrite::{rewrite, rewrite_spec};
use crate::value::{value_model, BoundParam, GenericValue, PrimValue};

verus! {

/// One decoded result row: an ordered mapping from column name to
/// generic value. Names need not be unique; the order is the order the
/// protocol reported the columns in.
#[derive(Debug, PartialEq)]
pub struct Record {
    pub columns: Vec<(String, GenericValue)>,
}

/// One item of a query's result stream, reduced to plain data: either
/// a row, as the column-name list paired with the cell list, or any
/// other stream item (metadata, summaries), which the query path
/// ignores.
#[derive(Debug, PartialEq)]
pub enum StreamItem {
    Row(Vec<String>, Vec<Column>),
    Other,
}

/// A statement ready for transmission: the rewritten text and the
/// bound parameters, in positional order.
#[derive(Debug, PartialEq)]
pub struct Statement {
    pub text: String,
    pub params: Vec<BoundParam>,
}

/// What the protocol round-trip of a non-query execution came back
/// with: a connection failure, a rejection of the statement, or
/// completion with the protocol's list of affected-row counts.
#[derive(Debug, PartialEq)]
pub enum ExecOutcome {
    ConnectFailed(String),
    StatementFailed(String),
    Completed(Vec<u64>),
}

/// What the protocol round-trip of a query came back with: a failure
/// at connect, at statement execution or while reading the stream, or
/// the full list of delivered stream items.
#[derive(Debug, PartialEq)]
pub enum QueryOutcome {
    ConnectFailed(String),
    StatementFailed(String),
    StreamFailed(String),
    Delivered(Vec<StreamItem>),
}

/// The model of one row as decoded: the column names zipped, in order,
/// with the decoded cells, cut to the shorter of the two lists.
pub open spec fn row_model(names: Seq<String>, cells: Seq<Column>) -> Seq<(Seq<char>, PrimValue)> {
    Seq::new(
        if names.len() <= cells.len() {
            names.len()
        } else {
            cells.len()
        },
        |i: int| (names[i]@, decode_model(cells[i])),
    )
}

/// The model of a built record.
pub open spec fn record_model(r: Record) -> Seq<(Seq<char>, PrimValue)> {
    r.columns@.map_values(|p: (String, GenericValue)| (p.0@, value_model(p.1)))
}

/// The models of the rows among the delivered stream items, in
/// delivery order; items other than rows contribute nothing.
pub open spec fn stream_rows_model(items: Seq<StreamItem>) -> Seq<Seq<(Seq<char>, PrimValue)>>
    decreases items.len(),
{
    if items.len() == 0 {
        Seq::<Seq<(Seq<char>, PrimValue)>>::empty()
    } else {
        let init = stream_rows_model(items.drop_last());
        match items.last() {
            StreamItem::Row(names, cells) => init.push(row_model(names@, cells@)),
            StreamItem::Other => init,
        }
    }
}

/// Builds one record by zipping, in order, the column-name list with
/// the decoded cell list.
pub fn build_record(names: &Vec<String>, cells: &Vec<Column>) -> (r: Record)
    ensures
        record_model(r) == row_model(names@, cells@),
{
    let mut columns: Vec<(String, GenericValue)> = Vec::new();
    let mut i: usize = 0;
    while i < names.len() && i < cells.len()
        invariant
            columns@.len() == i,
            i <= names@.len(),
            i <= cells@.len(),
            forall|j: int|
                0 <= j < i ==> columns@[j].0@ == names@[j]@ && value_model(columns@[j].1)
                    == decode_model(cells@[j]),
        decreases names@.len() - i,
    {
        let name = names[i].clone();
        let val = decode_column(&cells[i]);
        columns.push((name, val));
        i = i + 1;
    }
    let r = Record { columns };
    proof {
        assert(record_model(r) =~= row_model(names@, cells@));
    }
    r
}

/// Decodes the delivered stream items into the ordered record list:
/// one record per row item, in delivery order, every other item
/// ignored.
pub fn decode_items(items: &Vec<StreamItem>) -> (rows: Vec<Record>)
    ensures
        rows@.map_values(|r: Record| record_model(r)) == stream_rows_model(items@),
{
    let mut rows: Vec<Record> = Vec::new();
    let mut i: usize = 0;
    proof {
        assert(items@.take(0) =~= Seq::<StreamItem>::empty());
    }
    while i < items.len()
        invariant
            i <= items@.len(),
            rows@.map_values(|r: Record| record_model(r)) == stream_rows_model(
                items@.take(i as int),
            ),
        decreases items@.len() - i,
    {
        let ghost rows0: Seq<Record> = rows@;
        proof {
            assert(items@.take(i as int + 1).drop_last() =~= items@.take(i as int));
            assert(items@.take(i as int + 1).last() == items@[i as int]);
        }
        match &items[i] {
            StreamItem::Row(names, cells) => {
                let rec = build_record(names, cells);
                rows.push(rec);
                proof {
                    assert(rows@.map_values(|r: Record| record_model(r)) =~= rows0.map_values(
                        |r: Record| record_model(r),
                    ).push(record_model(rec)));
                }
            },
            StreamItem::Other => {},
        }
        i = i + 1;
    }
    proof {
        assert(items@.take(items@.len() as int) =~= items@);
    }
    rows
}

/// The affected-row count of an execution: the first count the
/// protocol reported, or zero if it reported none.
pub fn affected_count(counts: &Vec<u64>) -> (n: u64)
    ensures
        n == (if counts@.len() == 0 {
            0u64
        } else {
            counts@[0]
        }),
{
    if counts.len() == 0 {
        0
    } else {
        counts[0]
    }
}

/// Prepares a statement for transmission: rewrites the placeholders
/// for exactly as many parameters as there are input values, and
/// encodes the values element-wise, order preserved. The bound
/// parameter list is always exactly as long as the input value list.
pub fn prepare(sql: &str, values: &Vec<GenericValue>) -> (s: Statement)
    ensures
        s.text@ == rewrite_spec(sql@, values@.len() as nat),
        s.params@.len() == values@.len(),
        forall|i: int| 0 <= i < values@.len() ==> s.params@[i]@ == value_model(values@[i]),
{
    let text = rewrite(sql, values.len());
    let params = encode_all(values);
    Statement { text, params }
}

/// Maps an execution outcome to the caller's result: completion yields
/// the first reported affected-row count (zero if none was reported),
/// and every failure yields exactly its description, never a count.
pub fn execute_result(out: ExecOutcome) -> (r: Result<u64, String>)
    ensures
        match out {
            ExecOutcome::Completed(counts) => r matches Ok(n) && n == (if counts@.len() == 0 {
                0u64
            } else {
                counts@[0]
            }),
            ExecOutcome::ConnectFailed(m) => r matches Err(e) && e@ == m@,
            ExecOutcome::StatementFailed(m) => r matches Err(e) && e@ == m@,
        },
{
    match out {
        ExecOutcome::Completed(counts) => Ok(affected_count(&counts)),
        ExecOutcome::ConnectFailed(m) => Err(m),
        ExecOutcome::StatementFailed(m) => Err(m),
    }
}

/// Maps a query outcome to the caller's result: a full delivery yields
/// the complete decoded record list, in delivery order, and every
/// failure — at connect, at execution or mid-stream — yields exactly
/// its description and no rows, never a partial list.
pub fn query_result(out: QueryOutcome) -> (r: Result<Vec<Record>, String>)
    ensures
        match out {
            QueryOutcome::Delivered(items) => r matches Ok(rows) && rows@.map_values(
                |rec: Record| record_model(rec),
            ) == stream_rows_model(items@),
            QueryOutcome::ConnectFailed(m) => r matches Err(e) && e@ == m@,
            QueryOutcome::StatementFailed(m) => r matches Err(e) && e@ == m@,
            QueryOutcome::StreamFailed(m) => r matches Err(e) && e@ == m@,
        },
{
    match out {
        QueryOutcome::Delivered(items) => Ok(decode_items(&items)),
        QueryOutcome::ConnectFailed(m) => Err(m),
        QueryOutcome::StatementFailed(m) => Err(m),
        QueryOutcome::StreamFailed(m) => Err(m),
    }
}

/// Decoding is deterministic: two deliveries of the same stream items
/// decode to the same record sequences, so running one read-only query
/// twice over an unchanged table yields identical results.
pub proof fn lemma_query_deterministic(a: Seq<StreamItem>, b: Seq<StreamItem>)
    requires
        a == b,
    ensures
        stream_rows_model(a) == stream_rows_model(b),
{
}

} // verus!
