//! Rows as the backend returns them, and the reading of typed values out of
//! them.

use crate::error::{BackendError, BackendErrorView};
use crate::value::{SqlValue, SqlValueView, Timestamp};
use vstd::prelude::*;

verus! {

/// One column of a returned row: its name and the value it holds.
#[derive(Debug, PartialEq, Eq)]
pub struct Cell {
    pub name: String,
    pub value: SqlValue,
}

/// What a [`Cell`] holds.
pub ghost struct CellView {
    pub name: Seq<char>,
    pub value: SqlValueView,
}

impl View for Cell {
    type V = CellView;

    open spec fn view(&self) -> CellView {
        CellView { name: self.name@, value: self.value@ }
    }
}

/// A row as the backend returned it: its columns in the order of the result.
#[derive(Debug, PartialEq, Eq)]
pub struct Row {
    pub cells: Vec<Cell>,
}

impl View for Row {
    type V = Seq<CellView>;

    open spec fn view(&self) -> Seq<CellView> {
        self.cells@.map_values(|c: Cell| c@)
    }
}

/// The views of a sequence of rows, in order.
pub open spec fn rows_view(rows: Seq<Row>) -> Seq<Seq<CellView>> {
    rows.map_values(|r: Row| r@)
}

/// The value of the column `name` of `row`. Where several columns bear the
/// name, the last of them is meant, as in the backend's driver.
pub open spec fn lookup(row: Seq<CellView>, name: Seq<char>) -> Option<SqlValueView>
    decreases row.len(),
{
    if row.len() == 0 {
        None
    } else if row.last().name == name {
        Some(row.last().value)
    } else {
        lookup(row.drop_last(), name)
    }
}

/// The integer in column `name`: the column must be there and hold an integer.
pub open spec fn decode_int(row: Seq<CellView>, name: Seq<char>) -> Result<i32, BackendErrorView> {
    match lookup(row, name) {
        None => Err(BackendErrorView::ColumnNotFound(name)),
        Some(SqlValueView::Int(i)) => Ok(i),
        Some(_) => Err(BackendErrorView::ColumnDecode(name)),
    }
}

/// The integer in column `name`, or `None` for a null.
pub open spec fn decode_opt_int(row: Seq<CellView>, name: Seq<char>) -> Result<
    Option<i32>,
    BackendErrorView,
> {
    match lookup(row, name) {
        None => Err(BackendErrorView::ColumnNotFound(name)),
        Some(SqlValueView::Int(i)) => Ok(Some(i)),
        Some(SqlValueView::Null(_)) => Ok(None),
        Some(_) => Err(BackendErrorView::ColumnDecode(name)),
    }
}

/// The text in column `name`: the column must be there and hold a text.
pub open spec fn decode_text(row: Seq<CellView>, name: Seq<char>) -> Result<
    Seq<char>,
    BackendErrorView,
> {
    match lookup(row, name) {
        None => Err(BackendErrorView::ColumnNotFound(name)),
        Some(SqlValueView::Text(s)) => Ok(s),
        Some(_) => Err(BackendErrorView::ColumnDecode(name)),
    }
}

/// The text in column `name`, or `None` for a null.
pub open spec fn decode_opt_text(row: Seq<CellView>, name: Seq<char>) -> Result<
    Option<Seq<char>>,
    BackendErrorView,
> {
    match lookup(row, name) {
        None => Err(BackendErrorView::ColumnNotFound(name)),
        Some(SqlValueView::Text(s)) => Ok(Some(s)),
        Some(SqlValueView::Null(_)) => Ok(None),
        Some(_) => Err(BackendErrorView::ColumnDecode(name)),
    }
}

/// The instant in column `name`: the column must be there and hold an
/// instant.
pub open spec fn decode_timestamp(row: Seq<CellView>, name: Seq<char>) -> Result<
    Timestamp,
    BackendErrorView,
> {
    match lookup(row, name) {
        None => Err(BackendErrorView::ColumnNotFound(name)),
        Some(SqlValueView::Timestamp(t)) => Ok(t),
        Some(_) => Err(BackendErrorView::ColumnDecode(name)),
    }
}

/// A result with the views of what it holds, for a value that is its own
/// view.
pub open spec fn plain_view<T>(r: Result<T, BackendError>) -> Result<T, BackendErrorView> {
    match r {
        Ok(v) => Ok(v),
        Err(e) => Err(e@),
    }
}

impl Row {
    /// The value of the column `name`, if the row has one.
    pub fn get(&self, name: &str) -> (r: Option<&SqlValue>)
        ensures
            match r {
                Some(v) => lookup(self@, name@) == Some(v@),
                None => lookup(self@, name@) is None,
            },
    {
        let wanted = name.to_owned();
        let mut i: usize = self.cells.len();
        assert(self@.take(i as int) =~= self@);
        while i > 0
            invariant
                0 <= i <= self.cells.len(),
                wanted@ == name@,
                lookup(self@, name@) == lookup(self@.take(i as int), name@),
            decreases i,
        {
            proof {
                let prefix = self@.take(i as int);
                assert(prefix.drop_last() =~= self@.take(i - 1));
            }
            i -= 1;
            if self.cells[i].name == wanted {
                return Some(&self.cells[i].value);
            }
        }
        None
    }

    /// Reads the integer in column `name`.
    pub fn get_int(&self, name: &str) -> (r: Result<i32, BackendError>)
        ensures
            plain_view(r) == decode_int(self@, name@),
    {
        match self.get(name) {
            None => Err(BackendError::ColumnNotFound(name.to_owned())),
            Some(SqlValue::Int(i)) => Ok(*i),
            Some(_) => Err(BackendError::ColumnDecode(name.to_owned())),
        }
    }

    /// Reads the integer in column `name`, `None` for a null.
    pub fn get_opt_int(&self, name: &str) -> (r: Result<Option<i32>, BackendError>)
        ensures
            plain_view(r) == decode_opt_int(self@, name@),
    {
        match self.get(name) {
            None => Err(BackendError::ColumnNotFound(name.to_owned())),
            Some(SqlValue::Int(i)) => Ok(Some(*i)),
            Some(SqlValue::Null(_)) => Ok(None),
            Some(_) => Err(BackendError::ColumnDecode(name.to_owned())),
        }
    }

    /// Reads the text in column `name`.
    pub fn get_text(&self, name: &str) -> (r: Result<String, BackendError>)
        ensures
            match r {
                Ok(s) => decode_text(self@, name@) == Ok::<Seq<char>, BackendErrorView>(s@),
                Err(e) => decode_text(self@, name@) == Err::<Seq<char>, BackendErrorView>(e@),
            },
    {
        match self.get(name) {
            None => Err(BackendError::ColumnNotFound(name.to_owned())),
            Some(SqlValue::Text(s)) => Ok(s.clone()),
            Some(_) => Err(BackendError::ColumnDecode(name.to_owned())),
        }
    }

    /// Reads the text in column `name`, `None` for a null.
    pub fn get_opt_text(&self, name: &str) -> (r: Result<Option<String>, BackendError>)
        ensures
            match r {
                Ok(Some(s)) => decode_opt_text(self@, name@) == Ok::<
                    Option<Seq<char>>,
                    BackendErrorView,
                >(Some(s@)),
                Ok(None) => decode_opt_text(self@, name@) == Ok::<
                    Option<Seq<char>>,
                    BackendErrorView,
                >(None),
                Err(e) => decode_opt_text(self@, name@) == Err::<
                    Option<Seq<char>>,
                    BackendErrorView,
                >(e@),
            },
    {
        match self.get(name) {
            None => Err(BackendError::ColumnNotFound(name.to_owned())),
            Some(SqlValue::Text(s)) => Ok(Some(s.clone())),
            Some(SqlValue::Null(_)) => Ok(None),
            Some(_) => Err(BackendError::ColumnDecode(name.to_owned())),
        }
    }

    /// Reads the instant in column `name`.
    pub fn get_timestamp(&self, name: &str) -> (r: Result<Timestamp, BackendError>)
        ensures
            plain_view(r) == decode_timestamp(self@, name@),
    {
        match self.get(name) {
            None => Err(BackendError::ColumnNotFound(name.to_owned())),
            Some(SqlValue::Timestamp(t)) => Ok(*t),
            Some(_) => Err(BackendError::ColumnDecode(name.to_owned())),
        }
    }
}

} // verus!
