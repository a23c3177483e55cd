//! Rows as the store hands them over: an ordered sequence of column values.
use vstd::prelude::*;

verus! {

/// One column value of a row.
#[derive(Clone, Debug)]
pub enum Cell {
    Text(String),
    Int(i64),
    /// A null, or a value of a type that no entity reads.
    Other,
}

/// What a column value holds, as plain mathematical values.
pub enum CellView {
    Text(Seq<char>),
    Int(i64),
    Other,
}

impl View for Cell {
    type V = CellView;

    open spec fn view(&self) -> CellView {
        match self {
            Cell::Text(s) => CellView::Text(s@),
            Cell::Int(i) => CellView::Int(*i),
            Cell::Other => CellView::Other,
        }
    }
}

/// The view of a row: the view of each of its cells, in order.
pub open spec fn row_view(row: Seq<Cell>) -> Seq<CellView> {
    row.map_values(|c: Cell| c@)
}

/// The text in column `i`, if the row has that column and it holds text.
pub open spec fn text_at(row: Seq<CellView>, i: int) -> Option<Seq<char>> {
    if 0 <= i < row.len() {
        match row[i] {
            CellView::Text(s) => Some(s),
            _ => None,
        }
    } else {
        None
    }
}

/// The integer in column `i`, if the row has that column and it holds one.
pub open spec fn int_at(row: Seq<CellView>, i: int) -> Option<i64> {
    if 0 <= i < row.len() {
        match row[i] {
            CellView::Int(v) => Some(v),
            _ => None,
        }
    } else {
        None
    }
}

/// The text in column `i`, if there is one.
pub fn get_text(row: &Vec<Cell>, i: usize) -> (r: Option<&String>)
    ensures
        match r {
            Some(s) => text_at(row_view(row@), i as int) == Some(s@),
            None => text_at(row_view(row@), i as int) is None,
        },
{
    if i < row.len() {
        match &row[i] {
            Cell::Text(s) => Some(s),
            _ => None,
        }
    } else {
        None
    }
}

/// The integer in column `i`, if there is one.
pub fn get_int(row: &Vec<Cell>, i: usize) -> (r: Option<i64>)
    ensures
        r == int_at(row_view(row@), i as int),
{
    if i < row.len() {
        match &row[i] {
            Cell::Int(v) => Some(*v),
            _ => None,
        }
    } else {
        None
    }
}

} // verus!
