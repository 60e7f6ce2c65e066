//! What a type must offer to be stored, read back or asked for: the contracts
//! between record shapes and the operations of the repository.
//!
//! Each trait pairs its executable methods with ghost functions that say what
//! the methods compute. The ghost functions have bodies, so that a type can
//! implement a trait by its executable methods alone where it is not
//! verified; a verified implementation gives its own.

use crate::changeset::TableRef;
use crate::error::{BackendError, BackendErrorView, ChangeError, ChangeErrorView};
use crate::row::{CellView, Row};
use crate::statement::{InsertStatement, InsertView, SelectStatement, SelectView, Statement};
use crate::value::{SqlValue, SqlValueView};
use std::marker::PhantomData;
use vstd::prelude::*;

verus! {

/// A result of decoding with the views of what it holds.
pub open spec fn decoded_view<R: View>(r: Result<R, BackendError>) -> Result<
    R::V,
    BackendErrorView,
> {
    match r {
        Ok(v) => Ok(v@),
        Err(e) => Err(e@),
    }
}

/// The literal shape of a stored row: it knows its table, which is the same
/// for every value of the type, its primary key, and how it is read out of a
/// returned row.
pub trait DBRecord: Sized + View + TableRef {
    /// The primary key of the record that has the view `record`. The key is
    /// part of what a record holds: records with the same view have the same
    /// key.
    open spec fn key_of(record: Self::V) -> i32 {
        arbitrary()
    }

    /// What reading a record of this shape out of `row` gives.
    open spec fn decode(row: Seq<CellView>) -> Result<Self::V, BackendErrorView> {
        arbitrary()
    }

    fn primary_key(&self) -> (k: i32)
        ensures
            k == Self::key_of(self@),
    ;

    /// Reads a record out of a returned row, or says which column stood in
    /// the way.
    fn from_row(row: &Row) -> (r: Result<Self, BackendError>)
        ensures
            decoded_view(r) == Self::decode(row@),
    ;
}

/// A domain object made from a record. Every record yields its entity; the
/// way back is not asked for.
pub trait Entity: Sized {
    type Record: DBRecord;

    /// The entity that a record yields.
    open spec fn spec_from_record(record: Self::Record) -> Self {
        arbitrary()
    }

    fn from_record(record: Self::Record) -> (e: Self)
        ensures
            e == Self::spec_from_record(record),
    ;
}

/// A bag of proposed column values that can be compiled into an insert.
pub trait Insertable: Sized {
    type Output: DBRecord;

    /// What `inject_values` makes of an insert.
    open spec fn injected(&self, starter_query: InsertView) -> InsertView {
        arbitrary()
    }

    /// Adds the proposed columns with their values, and the conflict rule if
    /// there is one, to an insert. The table is left as it is.
    fn inject_values(self, starter_query: &mut InsertStatement)
        ensures
            final(starter_query)@ == self.injected(old(starter_query)@),
            final(starter_query)@.table == old(starter_query)@.table,
    ;

    /// The insert into the table of `Output` that sets exactly the proposed
    /// columns and asks all columns of the stored row back.
    fn prepare_query(self) -> (r: Statement)
        ensures
            r@ == self.injected(InsertView::fresh(Self::Output::spec_table_ref())).rendered(),
    {
        let mut starting_query = InsertStatement::into_table(Self::Output::table_ref());
        self.inject_values(&mut starting_query);
        starting_query.build()
    }
}

/// A filter description that renders itself into a read and says which shape
/// of record the read yields.
pub trait Queryable {
    type Output: DBRecord;

    /// The table and the equality filters of the read. A criterion that was
    /// not supplied has no filter.
    open spec fn selection(&self) -> SelectView {
        arbitrary()
    }

    fn to_sql(&self) -> (r: Statement)
        ensures
            r@ == self.selection().rendered(),
            self.selection().table == Self::Output::spec_table_ref(),
    ;
}

/// The read of the record of `R` with a given primary key. The key is held
/// in the column `id`.
#[derive(Debug, PartialEq, Eq)]
pub struct PrimaryKeyQuery<R: DBRecord> {
    pub id: i32,
    pub record: PhantomData<R>,
}

impl<R: DBRecord> PrimaryKeyQuery<R> {
    pub fn new(id: i32) -> (r: Self)
        ensures
            r.id == id,
    {
        PrimaryKeyQuery { id, record: PhantomData }
    }
}

impl<R: DBRecord> Queryable for PrimaryKeyQuery<R> {
    type Output = R;

    open spec fn selection(&self) -> SelectView {
        SelectView::all_of(R::spec_table_ref()).and_where_eq("id"@, SqlValueView::Int(self.id))
    }

    fn to_sql(&self) -> (r: Statement) {
        let mut query = SelectStatement::from(R::table_ref());
        query.and_where_eq("id", SqlValue::Int(self.id));
        query.build()
    }
}

/// Proposed changes that can be checked against their rules.
pub trait Validatable {
    /// Every rule can be applied to what it guards, and what it answers is
    /// determined by that.
    open spec fn rules_apply(&self) -> bool {
        arbitrary()
    }

    /// The messages of the rules that fail, rule by rule in the order of the
    /// changes.
    open spec fn failures(&self) -> Seq<Seq<char>> {
        arbitrary()
    }

    /// Runs every rule. Succeeds when none fails; otherwise reports the
    /// messages of all that fail.
    fn validate(&self) -> (r: Result<(), ChangeError>)
        requires
            self.rules_apply(),
        ensures
            match r {
                Ok(_) => self.failures().len() == 0,
                Err(e) => self.failures().len() > 0 && e@ == ChangeErrorView::ValidationError(
                    self.failures(),
                ),
            },
    ;
}

} // verus!
