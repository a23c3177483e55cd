//! Loading a whole table: every row that decodes, the others left out.
use vstd::prelude::*;

use crate::entity::DatabaseObject;
use crate::row::{row_view, Cell, CellView};

verus! {

/// The records that the rows decode to, in row order, skipping each row that
/// does not decode.
pub open spec fn decoded_rows<T: DatabaseObject>(rows: Seq<Seq<CellView>>) -> Seq<T::V>
    decreases rows.len(),
{
    if rows.len() == 0 {
        seq![]
    } else {
        let rest = decoded_rows::<T>(rows.drop_last());
        match T::decode(rows.last()) {
            Some(v) => rest.push(v),
            None => rest,
        }
    }
}

/// How many of the rows decode.
pub open spec fn count_valid<T: DatabaseObject>(rows: Seq<Seq<CellView>>) -> nat
    decreases rows.len(),
{
    if rows.len() == 0 {
        0
    } else {
        count_valid::<T>(rows.drop_last()) + if T::decode(rows.last()) is Some {
            1nat
        } else {
            0nat
        }
    }
}

/// How many of the rows do not decode.
pub open spec fn count_invalid<T: DatabaseObject>(rows: Seq<Seq<CellView>>) -> nat
    decreases rows.len(),
{
    if rows.len() == 0 {
        0
    } else {
        count_invalid::<T>(rows.drop_last()) + if T::decode(rows.last()) is None {
            1nat
        } else {
            0nat
        }
    }
}

/// The views of a sequence of rows.
pub open spec fn rows_view(rows: Seq<Vec<Cell>>) -> Seq<Seq<CellView>> {
    rows.map_values(|row: Vec<Cell>| row_view(row@))
}

/// The views of a sequence of records.
pub open spec fn records_view<T: DatabaseObject>(records: Seq<T>) -> Seq<T::V> {
    records.map_values(|e: T| e@)
}

/// Decodes every row, keeping those that decode, in order.
pub fn decode_rows<T: DatabaseObject>(rows: &Vec<Vec<Cell>>) -> (r: Vec<T>)
    ensures
        records_view(r@) == decoded_rows::<T>(rows_view(rows@)),
{
    let mut out: Vec<T> = Vec::new();
    let mut i: usize = 0;
    while i < rows.len()
        invariant
            i <= rows.len(),
            records_view(out@) == decoded_rows::<T>(rows_view(rows@.take(i as int))),
        decreases rows.len() - i,
    {
        let decoded = T::from_row(&rows[i]);
        proof {
            assert(rows@.take(i as int + 1).drop_last() =~= rows@.take(i as int));
            assert(rows_view(rows@.take(i as int + 1)).drop_last() =~= rows_view(
                rows@.take(i as int),
            ));
        }
        match decoded {
            Some(e) => {
                out.push(e);
                assert(records_view(out@) =~= records_view(out@.drop_last()).push(e@));
            },
            None => {},
        }
        i = i + 1;
    }
    assert(rows@.take(rows.len() as int) =~= rows@);
    out
}

/// The result of a query over a whole table, decoded: `None` only where the
/// query failed, never because a row did not decode.
pub fn collect_rows<T: DatabaseObject>(result: Option<Vec<Vec<Cell>>>) -> (r: Option<Vec<T>>)
    ensures
        match result {
            Some(rows) => r is Some && records_view(r->0@) == decoded_rows::<T>(rows_view(rows@)),
            None => r is None,
        },
{
    match result {
        Some(rows) => Some(decode_rows(&rows)),
        None => None,
    }
}

/// Of rows of which some decode and some do not, as many records come out as
/// rows decode; the two counts make up all the rows.
pub proof fn lemma_best_effort<T: DatabaseObject>(rows: Seq<Seq<CellView>>)
    ensures
        decoded_rows::<T>(rows).len() == count_valid::<T>(rows),
        count_valid::<T>(rows) + count_invalid::<T>(rows) == rows.len(),
    decreases rows.len(),
{
    if rows.len() > 0 {
        lemma_best_effort::<T>(rows.drop_last());
    }
}

} // verus!
