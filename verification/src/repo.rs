//! The operations of the repository: `insert`, `one`, `all` and `load`.
//!
//! An operation never touches the backend itself. Its first half says which
//! statement is to be run, if any; the caller runs it in one round trip and
//! hands what came back to the second half, which decides the outcome.

use crate::assocs::{fits, after_load, AssociationLoader, Data, Loadable, Multiplicity};
use crate::attributes::{
    DBRecord, Entity, Insertable, PrimaryKeyQuery, Queryable, Validatable,
};
use crate::changeset::TableRef;
use crate::error::{BackendError, BackendErrorView, ChangeError, ChangeErrorView};
use crate::row::{rows_view, CellView, Row};
use crate::statement::{InsertView, SelectView, Statement};
use crate::value::SqlValueView;
use vstd::prelude::*;

verus! {

/// One round trip that the caller is to make: the statement to run, and
/// whether the first row of the result is wanted or all of them. Only the
/// operations of this module make requests, so an insert that reaches the
/// backend has passed validation.
#[derive(Debug, PartialEq, Eq)]
pub struct Request {
    statement: Statement,
    expect: Multiplicity,
}

impl Request {
    /// The statement to run.
    pub closed spec fn spec_statement(&self) -> Statement {
        self.statement
    }

    /// Whether the first row of the result is wanted or all of them.
    pub closed spec fn spec_expect(&self) -> Multiplicity {
        self.expect
    }

    /// The statement to run.
    pub fn statement(&self) -> (s: &Statement)
        ensures
            *s == self.spec_statement(),
    {
        &self.statement
    }

    /// Whether the first row of the result is wanted or all of them.
    pub fn expect(&self) -> (m: Multiplicity)
        ensures
            m == self.spec_expect(),
    {
        self.expect
    }
}

/// What a round trip brought back, with the views of what it holds.
pub open spec fn fetched_view(fetched: Result<Vec<Row>, BackendError>) -> Result<
    Seq<Seq<CellView>>,
    BackendErrorView,
> {
    match fetched {
        Ok(rows) => Ok(rows_view(rows@)),
        Err(e) => Err(e@),
    }
}

/// The outcome of an operation with the views of what it holds.
pub open spec fn outcome_view<R: View>(r: Result<R, ChangeError>) -> Result<R::V, ChangeErrorView> {
    match r {
        Ok(v) => Ok(v@),
        Err(e) => Err(e@),
    }
}

/// The views of a sequence of records, in order.
pub open spec fn records_view<R: View>(records: Seq<R>) -> Seq<R::V> {
    records.map_values(|r: R| r@)
}

/// The outcome of an operation that yields records, with the views of what it
/// holds.
pub open spec fn outcomes_view<R: View>(r: Result<Vec<R>, ChangeError>) -> Result<
    Seq<R::V>,
    ChangeErrorView,
> {
    match r {
        Ok(v) => Ok(records_view(v@)),
        Err(e) => Err(e@),
    }
}

/// The record that a read of one row yields: the first row of the result,
/// decoded. A failed round trip, a result without rows and a row that does
/// not decode are errors of the backend.
pub open spec fn one_of<R: DBRecord>(
    fetched: Result<Seq<Seq<CellView>>, BackendErrorView>,
) -> Result<R::V, ChangeErrorView> {
    match fetched {
        Err(e) => Err(ChangeErrorView::DBError(e)),
        Ok(rows) => if rows.len() == 0 {
            Err(ChangeErrorView::DBError(BackendErrorView::RowNotFound))
        } else {
            match R::decode(rows[0]) {
                Ok(v) => Ok(v),
                Err(e) => Err(ChangeErrorView::DBError(e)),
            }
        },
    }
}

/// Every row decoded, in order; the error of the first row that does not
/// decode, if there is one.
pub open spec fn decode_rows<R: DBRecord>(rows: Seq<Seq<CellView>>) -> Result<
    Seq<R::V>,
    BackendErrorView,
>
    decreases rows.len(),
{
    if rows.len() == 0 {
        Ok(Seq::empty())
    } else {
        match decode_rows::<R>(rows.drop_last()) {
            Err(e) => Err(e),
            Ok(records) => match R::decode(rows.last()) {
                Err(e) => Err(e),
                Ok(v) => Ok(records.push(v)),
            },
        }
    }
}

/// The records that a read of all rows yields: every row of the result,
/// decoded, in the order of the result. A result without rows yields no
/// records and is no error.
pub open spec fn all_of<R: DBRecord>(
    fetched: Result<Seq<Seq<CellView>>, BackendErrorView>,
) -> Result<Seq<R::V>, ChangeErrorView> {
    match fetched {
        Err(e) => Err(ChangeErrorView::DBError(e)),
        Ok(rows) => match decode_rows::<R>(rows) {
            Ok(records) => Ok(records),
            Err(e) => Err(ChangeErrorView::DBError(e)),
        },
    }
}

/// Whether `entity` is what a record with the view `record` yields.
pub open spec fn made_from<E: Entity>(entity: E, record: <E::Record as View>::V) -> bool {
    exists|r: E::Record| r@ == record && entity == E::spec_from_record(r)
}

/// Whether `data` holds, in order, the entities that the records yield.
pub open spec fn holds_all<E: Entity>(data: Data<E>, records: Seq<<E::Record as View>::V>) -> bool {
    &&& data matches Data::Many(entities)
    &&& entities.len() == records.len()
    &&& forall|i: int| 0 <= i < records.len() ==> made_from(#[trigger] entities[i], records[i])
}

/// Whether `data` holds the entity that the record yields.
pub open spec fn holds_one<E: Entity>(data: Data<E>, record: <E::Record as View>::V) -> bool {
    data matches Data::One(entity) && made_from(entity, record)
}

/// Begins an insert: validates the proposed changes and, only if no rule
/// fails, compiles them into the insert to run. A failed validation yields
/// the messages of all failing rules and no statement, so nothing reaches the
/// backend.
pub fn insert<I: Insertable + Validatable>(data: I) -> (r: Result<Request, ChangeError>)
    requires
        data.rules_apply(),
    ensures
        match r {
            Ok(request) => {
                &&& data.failures().len() == 0
                &&& request.spec_statement()@ == data.injected(
                    InsertView::fresh(I::Output::spec_table_ref()),
                ).rendered()
                &&& request.spec_expect() == Multiplicity::One
            },
            Err(e) => data.failures().len() > 0 && e@ == ChangeErrorView::ValidationError(
                data.failures(),
            ),
        },
{
    match data.validate() {
        Err(e) => Err(e),
        Ok(_) => Ok(Request { statement: data.prepare_query(), expect: Multiplicity::One }),
    }
}

/// Ends an insert: decodes the row that the backend stored.
pub fn insert_reply<R: DBRecord>(fetched: Result<Vec<Row>, BackendError>) -> (r: Result<
    R,
    ChangeError,
>)
    ensures
        outcome_view(r) == one_of::<R>(fetched_view(fetched)),
{
    one_reply(fetched)
}

/// Begins a read of one record.
pub fn one<Q: Queryable>(query: &Q) -> (r: Request)
    ensures
        r.spec_statement()@ == query.selection().rendered(),
        r.spec_expect() == Multiplicity::One,
{
    Request { statement: query.to_sql(), expect: Multiplicity::One }
}

/// Ends a read of one record: the first row decoded. No row at all is an
/// error, `RowNotFound`, and not an absent record.
pub fn one_reply<R: DBRecord>(fetched: Result<Vec<Row>, BackendError>) -> (r: Result<
    R,
    ChangeError,
>)
    ensures
        outcome_view(r) == one_of::<R>(fetched_view(fetched)),
{
    match fetched {
        Err(e) => Err(ChangeError::DBError(e)),
        Ok(rows) => {
            if rows.len() == 0 {
                Err(ChangeError::DBError(BackendError::RowNotFound))
            } else {
                match R::from_row(&rows[0]) {
                    Ok(record) => Ok(record),
                    Err(e) => Err(ChangeError::DBError(e)),
                }
            }
        },
    }
}

/// Begins a read of any number of records.
pub fn all<Q: Queryable>(query: &Q) -> (r: Request)
    ensures
        r.spec_statement()@ == query.selection().rendered(),
        r.spec_expect() == Multiplicity::Many,
{
    Request { statement: query.to_sql(), expect: Multiplicity::Many }
}

/// Ends a read of any number of records: every row decoded, in the order of
/// the result. A result without rows gives an empty sequence.
pub fn all_reply<R: DBRecord>(fetched: Result<Vec<Row>, BackendError>) -> (r: Result<
    Vec<R>,
    ChangeError,
>)
    ensures
        outcomes_view(r) == all_of::<R>(fetched_view(fetched)),
{
    match fetched {
        Err(e) => Err(ChangeError::DBError(e)),
        Ok(rows) => {
            let mut records: Vec<R> = Vec::new();
            let mut i: usize = 0;
            proof {
                assert(records_view(records@) =~= Seq::empty());
            }
            while i < rows.len()
                invariant
                    0 <= i <= rows.len(),
                    fetched_view(fetched) == Ok::<Seq<Seq<CellView>>, BackendErrorView>(
                        rows_view(rows@),
                    ),
                    decode_rows::<R>(rows_view(rows@).take(i as int)) == Ok::<
                        Seq<R::V>,
                        BackendErrorView,
                    >(records_view(records@)),
                decreases rows.len() - i,
            {
                let ghost prefix = rows_view(rows@).take(i + 1);
                proof {
                    assert(prefix.drop_last() =~= rows_view(rows@).take(i as int));
                }
                match R::from_row(&rows[i]) {
                    Err(e) => {
                        proof {
                            lemma_decode_rows_fails_on::<R>(rows_view(rows@), i + 1);
                        }
                        return Err(ChangeError::DBError(e));
                    },
                    Ok(record) => {
                        let ghost before = records@;
                        records.push(record);
                        proof {
                            assert(records_view(records@) =~= records_view(before).push(record@));
                        }
                    },
                }
                i += 1;
            }
            assert(rows_view(rows@).take(i as int) =~= rows_view(rows@));
            Ok(records)
        },
    }
}

/// Decoding that fails on a prefix of the rows fails on all of them, with the
/// same error.
pub proof fn lemma_decode_rows_fails_on<R: DBRecord>(rows: Seq<Seq<CellView>>, n: int)
    requires
        0 <= n <= rows.len(),
        decode_rows::<R>(rows.take(n)) is Err,
    ensures
        decode_rows::<R>(rows) == decode_rows::<R>(rows.take(n)),
    decreases rows.len() - n,
{
    if n == rows.len() {
        assert(rows.take(n) =~= rows);
    } else {
        let longer = rows.take(n + 1);
        assert(longer.drop_last() =~= rows.take(n));
        lemma_decode_rows_fails_on::<R>(rows, n + 1);
    }
}

/// Where all rows decode, there is one record for each row, in the order of
/// the rows; where they do not, the error is that of the first row that does
/// not decode.
pub proof fn lemma_decode_rows<R: DBRecord>(rows: Seq<Seq<CellView>>)
    ensures
        match decode_rows::<R>(rows) {
            Ok(records) => {
                &&& records.len() == rows.len()
                &&& forall|i: int|
                    0 <= i < rows.len() ==> R::decode(#[trigger] rows[i]) == Ok::<
                        R::V,
                        BackendErrorView,
                    >(records[i])
            },
            Err(e) => exists|i: int|
                {
                    &&& 0 <= i < rows.len()
                    &&& R::decode(#[trigger] rows[i]) == Err::<R::V, BackendErrorView>(e)
                    &&& forall|j: int| 0 <= j < i ==> (#[trigger] R::decode(rows[j])) is Ok
                },
        },
    decreases rows.len(),
{
    if rows.len() > 0 {
        let earlier = rows.drop_last();
        lemma_decode_rows::<R>(earlier);
        match decode_rows::<R>(earlier) {
            Err(e) => {
                let i = choose|i: int|
                    {
                        &&& 0 <= i < earlier.len()
                        &&& R::decode(#[trigger] earlier[i]) == Err::<R::V, BackendErrorView>(e)
                        &&& forall|j: int| 0 <= j < i ==> (#[trigger] R::decode(earlier[j])) is Ok
                    };
                assert forall|j: int| 0 <= j < i implies (#[trigger] R::decode(rows[j])) is Ok by {
                    assert(R::decode(earlier[j]) is Ok);
                }
            },
            Ok(records) => {
                assert forall|j: int| 0 <= j < earlier.len() implies (#[trigger] R::decode(
                    rows[j],
                )) is Ok by {
                    assert(R::decode(earlier[j]) is Ok);
                }
                if let Ok(v) = R::decode(rows.last()) {
                    let all = records.push(v);
                    assert forall|i: int| 0 <= i < rows.len() implies R::decode(
                        #[trigger] rows[i],
                    ) == Ok::<R::V, BackendErrorView>(all[i]) by {
                        if i < earlier.len() {
                            assert(rows[i] == earlier[i]);
                        }
                    }
                }
            },
        }
    }
}

/// What a read of one record yields depends on the first row alone. So a
/// lookup that brings back the row that an insert returned yields the record
/// that the insert yielded.
pub proof fn lemma_same_row_same_record<R: DBRecord>(
    inserted: Seq<Seq<CellView>>,
    found: Seq<Seq<CellView>>,
)
    requires
        inserted.len() > 0,
        found.len() > 0,
        found[0] == inserted[0],
    ensures
        one_of::<R>(Ok(found)) == one_of::<R>(Ok(inserted)),
{
}

/// The round trip of a record. Let an insert have yielded `stored` from the
/// rows that the backend returned, and let a lookup by the primary key of
/// `stored` bring back the row that the insert returned. Then the lookup asks
/// for the row of the table of `R` whose `id` is that key; it succeeds, and
/// the record it yields holds what `stored` holds, the primary key among it.
pub proof fn lemma_round_trip<R: DBRecord>(
    inserted: Result<Vec<Row>, BackendError>,
    stored: R,
    lookup: PrimaryKeyQuery<R>,
    found: Result<Vec<Row>, BackendError>,
    read: Result<R, ChangeError>,
)
    requires
        one_of::<R>(fetched_view(inserted)) == Ok::<R::V, ChangeErrorView>(stored@),
        lookup.id == R::key_of(stored@),
        inserted matches Ok(rows) && found matches Ok(again) && again.len() > 0 && again[0]@
            == rows[0]@,
        outcome_view(read) == one_of::<R>(fetched_view(found)),
    ensures
        lookup.selection() == SelectView::all_of(R::spec_table_ref()).and_where_eq(
            "id"@,
            SqlValueView::Int(R::key_of(stored@)),
        ),
        read matches Ok(record) && record@ == stored@ && R::key_of(record@) == R::key_of(
            stored@,
        ),
{
}

/// A result without rows: a read of all records yields an empty sequence and
/// no error, while a read of one record is the error `RowNotFound`.
pub proof fn lemma_empty_result<R: DBRecord>()
    ensures
        all_of::<R>(Ok(Seq::empty())) == Ok::<Seq<R::V>, ChangeErrorView>(Seq::empty()),
        one_of::<R>(Ok(Seq::empty())) == Err::<R::V, ChangeErrorView>(
            ChangeErrorView::DBError(BackendErrorView::RowNotFound),
        ),
{
}

/// Whether `load` on an association in this state asks for a round trip:
/// only an association that is not loaded does.
pub open spec fn asks_round_trip<T>(state: Loadable<T>) -> bool {
    state is NotLoaded
}

/// Begins the load of an association: the read to run, of one record or of
/// all by its multiplicity. An association that is loaded asks for nothing.
pub fn load<E: Entity, A: AssociationLoader<E>>(assoc: &A) -> (r: Option<Request>)
    ensures
        r is Some <==> asks_round_trip(assoc.loadable()),
        r matches Some(request) ==> {
            &&& request.spec_statement()@ == assoc.spec_query().selection().rendered()
            &&& request.spec_expect() == assoc.spec_multiplicity()
        },
{
    if assoc.is_loaded() {
        None
    } else {
        let statement = assoc.query().to_sql();
        Some(Request { statement, expect: assoc.multiplicity() })
    }
}

/// What the load of an unloaded association makes of a round trip: the
/// outcome reported, and whether `after` is the state that the association
/// is left in.
pub open spec fn load_outcome<E: Entity>(
    multiplicity: Multiplicity,
    fetched: Result<Seq<Seq<CellView>>, BackendErrorView>,
    r: Result<(), ChangeError>,
    after: Loadable<E>,
) -> bool {
    match multiplicity {
        Multiplicity::One => match one_of::<E::Record>(fetched) {
            Err(e) => r is Err && r->Err_0@ == e && after is NotLoaded,
            Ok(record) => {
                &&& r is Ok
                &&& after matches Loadable::Loaded(data)
                &&& holds_one(data, record)
            },
        },
        Multiplicity::Many => match all_of::<E::Record>(fetched) {
            Err(e) => r is Err && r->Err_0@ == e && after is NotLoaded,
            Ok(records) => {
                &&& r is Ok
                &&& after matches Loadable::Loaded(data)
                &&& holds_all(data, records)
            },
        },
    }
}

/// Ends the load of an association. What came back is decoded as one record
/// or as all by the multiplicity, turned into entities and stored; on any
/// failure the association stays unloaded. An association that is loaded
/// keeps what it has.
pub fn load_reply<E: Entity, A: AssociationLoader<E>>(
    assoc: &mut A,
    fetched: Result<Vec<Row>, BackendError>,
) -> (r: Result<(), ChangeError>)
    ensures
        final(assoc).spec_multiplicity() == old(assoc).spec_multiplicity(),
        final(assoc).spec_query() == old(assoc).spec_query(),
        !asks_round_trip(old(assoc).loadable()) ==> r is Ok
            && final(assoc).loadable() == old(assoc).loadable(),
        asks_round_trip(old(assoc).loadable()) ==> load_outcome::<E>(
            old(assoc).spec_multiplicity(),
            fetched_view(fetched),
            r,
            final(assoc).loadable(),
        ),
{
    if assoc.is_loaded() {
        return Ok(());
    }
    match assoc.multiplicity() {
        Multiplicity::One => {
            let record: E::Record = match one_reply(fetched) {
                Ok(record) => record,
                Err(e) => {
                    return Err(e);
                },
            };
            let entity = E::from_record(record);
            assoc.load(Loadable::Loaded(Data::One(entity)));
            Ok(())
        },
        Multiplicity::Many => {
            let records: Vec<E::Record> = match all_reply(fetched) {
                Ok(records) => records,
                Err(e) => {
                    return Err(e);
                },
            };
            let ghost views = records_view(records@);
            let mut entities: Vec<E> = Vec::new();
            for record in it: records
                invariant
                    views == records_view(it.seq()),
                    entities.len() == it.index(),
                    forall|j: int|
                        0 <= j < entities.len() ==> made_from(#[trigger] entities[j], views[j]),
            {
                let entity = E::from_record(record);
                entities.push(entity);
            }
            assoc.load(Loadable::Loaded(Data::Many(entities)));
            Ok(())
        },
    }
}

/// Lazy loading is idempotent. An unloaded association asks for one round
/// trip. Once the data of that round trip is stored, the association is
/// loaded, it asks for no further round trip, and whatever is handed to it
/// later leaves the stored data as it is.
pub proof fn lemma_lazy_load_idempotent<T>(
    multiplicity: Multiplicity,
    first: Data<T>,
    later: Loadable<T>,
)
    requires
        fits(first, multiplicity),
    ensures
        ({
            let loaded = after_load(Loadable::NotLoaded, multiplicity, Loadable::Loaded(first));
            &&& loaded == Loadable::Loaded(first)
            &&& asks_round_trip(Loadable::<T>::NotLoaded)
            &&& !asks_round_trip(loaded)
            &&& after_load(loaded, multiplicity, later) == loaded
        }),
{
}

} // verus!
