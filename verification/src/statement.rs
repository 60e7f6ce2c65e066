//! Statements for the backend: the text with numbered placeholders, and the
//! values bound to them, kept apart from the text.
//!
//! The text is rendered by `sea_query` for PostgreSQL; what goes into a
//! statement is held here as plain values, so that contracts can speak of it.

use crate::value::{instant_in_range, names_view, values_view, SqlType, SqlValue, SqlValueView};
use vstd::prelude::*;

verus! {

/// `sea_query::Value`, the value that the renderer takes for a placeholder.
/// Nothing is known of what one holds.
#[verifier::external_type_specification]
#[verifier::external_body]
pub struct ExValue(sea_query::Value);

/// The text that `sea_query` renders for PostgreSQL for an insert into
/// `table` that sets `columns`, one placeholder for each, and asks all
/// columns of the new row back.
pub uninterp spec fn pg_insert_text(table: Seq<char>, columns: Seq<Seq<char>>) -> Seq<char>;

/// As [`pg_insert_text`], for an insert that on a conflict over the columns
/// `conflict` updates the columns `update` with the proposed values.
pub uninterp spec fn pg_upsert_text(
    table: Seq<char>,
    columns: Seq<Seq<char>>,
    conflict: Seq<Seq<char>>,
    update: Seq<Seq<char>>,
) -> Seq<char>;

/// The text that `sea_query` renders for PostgreSQL for a read of all
/// columns of `table`, restricted to the rows in which each column of
/// `filters` equals the placeholder of its position.
pub uninterp spec fn pg_select_text(table: Seq<char>, filters: Seq<Seq<char>>) -> Seq<char>;

/// The value that `sea_query` makes of an integer, or of no integer: the
/// null of integers.
pub uninterp spec fn bound_int(v: Option<i32>) -> sea_query::Value;

/// The value that `sea_query` makes of a text, or of no text: the null of
/// texts.
pub uninterp spec fn bound_text(v: Option<Seq<char>>) -> sea_query::Value;

/// The value that `sea_query` makes of the instant in UTC that lies the
/// given seconds and nanoseconds after the Unix epoch, or of no instant: the
/// null of instants.
pub uninterp spec fn bound_timestamp(v: Option<(int, int)>) -> sea_query::Value;

/// `sea_query`'s value for an integer, a null of its kind for `None`
/// (`Value::from`). The value is made of the integer alone.
#[verifier::external_body]
fn bind_int(v: Option<i32>) -> (r: sea_query::Value)
    ensures
        r == bound_int(v),
{
    v.into()
}

/// `sea_query`'s value for a text, a null of its kind for `None`
/// (`Value::from`). The value is made of the characters of the text alone.
#[verifier::external_body]
fn bind_text(v: Option<&str>) -> (r: sea_query::Value)
    ensures
        r == bound_text(
            match v {
                Some(s) => Some(s@),
                None => None,
            },
        ),
{
    v.into()
}

/// `sea_query`'s value for the instant in UTC that `chrono` makes of seconds
/// and nanoseconds since the Unix epoch (`DateTime::from_timestamp`), a null
/// of its kind for `None` (`Value::from`). The value is made of the seconds
/// and nanoseconds alone.
#[verifier::external_body]
fn bind_timestamp(v: Option<(i64, u32)>) -> (r: sea_query::Value)
    requires
        v matches Some(parts) ==> instant_in_range(parts.0 as int, parts.1 as int),
    ensures
        r == bound_timestamp(
            match v {
                Some(parts) => Some((parts.0 as int, parts.1 as int)),
                None => None,
            },
        ),
{
    v.and_then(|parts| chrono::DateTime::from_timestamp(parts.0, parts.1)).into()
}

/// Builds the insert with `sea_query::Query::insert`, `into_table`,
/// `columns`, `values_panic` and `returning`, and renders it with
/// `build(PostgresQueryBuilder)`, which writes a numbered placeholder for
/// each value. `values_panic` panics unless there are as many values as
/// columns.
#[verifier::external_body]
fn render_insert(table: &str, columns: &Vec<&'static str>, values: Vec<sea_query::Value>) -> (sql:
    String)
    requires
        columns.len() == values.len(),
    ensures
        sql@ == pg_insert_text(table@, names_view(columns@)),
{
    let mut q = sea_query::Query::insert();
    q.into_table(sea_query::Alias::new(table))
        .columns(columns.iter().map(|c| sea_query::Alias::new(c)))
        .values_panic(values.into_iter().map(|v| v.into()))
        .returning(sea_query::Query::returning().all());
    sea_query::QueryStatementWriter::build(&q, sea_query::PostgresQueryBuilder).0
}

/// As [`render_insert`], with `on_conflict` given
/// `OnConflict::columns(conflict)` and `update_columns(update)`.
#[verifier::external_body]
fn render_upsert(
    table: &str,
    columns: &Vec<&'static str>,
    values: Vec<sea_query::Value>,
    conflict: &Vec<&'static str>,
    update: &Vec<&'static str>,
) -> (sql: String)
    requires
        columns.len() == values.len(),
    ensures
        sql@ == pg_upsert_text(
            table@,
            names_view(columns@),
            names_view(conflict@),
            names_view(update@),
        ),
{
    let mut q = sea_query::Query::insert();
    q.into_table(sea_query::Alias::new(table))
        .columns(columns.iter().map(|c| sea_query::Alias::new(c)))
        .values_panic(values.into_iter().map(|v| v.into()))
        .on_conflict(
            sea_query::OnConflict::columns(conflict.iter().map(|c| sea_query::Alias::new(c)))
                .update_columns(update.iter().map(|c| sea_query::Alias::new(c)))
                .to_owned(),
        )
        .returning(sea_query::Query::returning().all());
    sea_query::QueryStatementWriter::build(&q, sea_query::PostgresQueryBuilder).0
}

/// Builds the read with `sea_query::Query::select`, `from`,
/// `expr(Expr::asterisk())` and one `and_where(Expr::col(..).eq(..))` for
/// each filter in order, and renders it with `build(PostgresQueryBuilder)`.
#[verifier::external_body]
fn render_select(table: &str, filters: &Vec<&'static str>, values: Vec<sea_query::Value>) -> (sql:
    String)
    requires
        filters.len() == values.len(),
    ensures
        sql@ == pg_select_text(table@, names_view(filters@)),
{
    let mut q = sea_query::Query::select();
    q.from(sea_query::Alias::new(table)).expr(sea_query::Expr::asterisk());
    filters.iter().zip(values).fold(
        &mut q,
        |q, (c, v)| q.and_where(sea_query::Expr::col(sea_query::Alias::new(c)).eq(v)),
    );
    sea_query::QueryStatementWriter::build(&q, sea_query::PostgresQueryBuilder).0
}

/// A statement ready for the backend: its text and, apart from the text, the
/// values for its placeholders in order.
#[derive(Debug, PartialEq, Eq)]
pub struct Statement {
    pub sql: String,
    pub params: Vec<SqlValue>,
}

/// What a [`Statement`] holds.
pub ghost struct StatementView {
    pub sql: Seq<char>,
    pub params: Seq<SqlValueView>,
}

impl View for Statement {
    type V = StatementView;

    open spec fn view(&self) -> StatementView {
        StatementView { sql: self.sql@, params: values_view(self.params@) }
    }
}

/// A proposed value for one column.
#[derive(Debug, PartialEq, Eq)]
pub struct Assignment {
    pub column: &'static str,
    pub value: SqlValue,
}

/// The columns of a sequence of assignments, in order.
pub open spec fn assigned_columns(a: Seq<Assignment>) -> Seq<Seq<char>> {
    a.map_values(|x: Assignment| x.column@)
}

/// The values of a sequence of assignments, in order.
pub open spec fn assigned_values(a: Seq<Assignment>) -> Seq<SqlValueView> {
    a.map_values(|x: Assignment| x.value@)
}

/// What an insert does when the new row collides with a stored one: over
/// which columns the collision is declared, and which columns then take the
/// proposed values.
#[derive(Debug, PartialEq, Eq)]
pub struct OnConflict {
    pub columns: Vec<&'static str>,
    pub update_columns: Vec<&'static str>,
}

/// What an [`OnConflict`] holds.
pub ghost struct OnConflictView {
    pub columns: Seq<Seq<char>>,
    pub update_columns: Seq<Seq<char>>,
}

impl View for OnConflict {
    type V = OnConflictView;

    open spec fn view(&self) -> OnConflictView {
        OnConflictView {
            columns: names_view(self.columns@),
            update_columns: names_view(self.update_columns@),
        }
    }
}

/// What an [`InsertStatement`] holds.
pub ghost struct InsertView {
    pub table: Seq<char>,
    pub columns: Seq<Seq<char>>,
    pub values: Seq<SqlValueView>,
    pub on_conflict: Option<OnConflictView>,
}

impl InsertView {
    /// The statement that the insert renders to: the text names the table,
    /// exactly the columns that were set and the conflict rule if there is
    /// one, and the values are bound in the order of their columns.
    pub open spec fn rendered(self) -> StatementView {
        StatementView {
            sql: match self.on_conflict {
                None => pg_insert_text(self.table, self.columns),
                Some(c) => pg_upsert_text(self.table, self.columns, c.columns, c.update_columns),
            },
            params: self.values,
        }
    }

    /// This insert with one more column set: `column` takes `value`.
    pub open spec fn value(self, column: Seq<char>, value: SqlValueView) -> InsertView {
        InsertView {
            columns: self.columns.push(column),
            values: self.values.push(value),
            ..self
        }
    }

    /// This insert with `rule` as its conflict rule.
    pub open spec fn on_conflict(self, rule: OnConflictView) -> InsertView {
        InsertView { on_conflict: Some(rule), ..self }
    }

    /// An insert into `table` that has set no column and declared no
    /// conflict rule.
    pub open spec fn fresh(table: Seq<char>) -> InsertView {
        InsertView { table, columns: Seq::empty(), values: Seq::empty(), on_conflict: None }
    }
}

/// An insert of one row under construction: the table, the columns set so
/// far with their values, and the conflict rule if one was declared.
#[derive(Debug, PartialEq, Eq)]
pub struct InsertStatement {
    table: &'static str,
    assignments: Vec<Assignment>,
    on_conflict: Option<OnConflict>,
}

impl View for InsertStatement {
    type V = InsertView;

    closed spec fn view(&self) -> InsertView {
        InsertView {
            table: self.table@,
            columns: assigned_columns(self.assignments@),
            values: assigned_values(self.assignments@),
            on_conflict: match self.on_conflict {
                None => None,
                Some(c) => Some(c@),
            },
        }
    }
}

/// The value that `sea_query` is handed for a value of the library: that of
/// the same kind and content, a null of the same kind for a null.
pub open spec fn bound_value(v: SqlValueView) -> sea_query::Value {
    match v {
        SqlValueView::Int(i) => bound_int(Some(i)),
        SqlValueView::Text(s) => bound_text(Some(s)),
        SqlValueView::Timestamp(t) => bound_timestamp(Some((t.spec_secs(), t.spec_nanos()))),
        SqlValueView::Null(SqlType::Int) => bound_int(None),
        SqlValueView::Null(SqlType::Text) => bound_text(None),
        SqlValueView::Null(SqlType::Timestamp) => bound_timestamp(None),
    }
}

/// The value handed to `sea_query` for `v`.
fn bound(v: &SqlValue) -> (r: sea_query::Value)
    ensures
        r == bound_value(v@),
{
    match v {
        SqlValue::Int(i) => bind_int(Some(*i)),
        SqlValue::Text(s) => bind_text(Some(s.as_str())),
        SqlValue::Timestamp(t) => bind_timestamp(Some((t.secs(), t.nanos()))),
        SqlValue::Null(SqlType::Int) => bind_int(None),
        SqlValue::Null(SqlType::Text) => bind_text(None),
        SqlValue::Null(SqlType::Timestamp) => bind_timestamp(None),
    }
}

/// Splits assignments into what the renderer takes and what is bound: the
/// columns, a `sea_query` value for each, and a copy of each value.
fn split(a: &Vec<Assignment>) -> (r: (Vec<&'static str>, Vec<sea_query::Value>, Vec<SqlValue>))
    ensures
        r.0.len() == a.len(),
        names_view(r.0@) == assigned_columns(a@),
        r.1.len() == a.len(),
        values_view(r.2@) == assigned_values(a@),
{
    let mut columns: Vec<&'static str> = Vec::new();
    let mut bounds: Vec<sea_query::Value> = Vec::new();
    let mut params: Vec<SqlValue> = Vec::new();
    let mut i: usize = 0;
    while i < a.len()
        invariant
            0 <= i <= a.len(),
            columns.len() == i,
            bounds.len() == i,
            params.len() == i,
            forall|j: int| 0 <= j < i ==> (#[trigger] columns[j])@ == a[j].column@,
            forall|j: int| 0 <= j < i ==> (#[trigger] params[j])@ == a[j].value@,
        decreases a.len() - i,
    {
        columns.push(a[i].column);
        bounds.push(bound(&a[i].value));
        params.push(a[i].value.clone());
        i += 1;
    }
    (columns, bounds, params)
}

impl InsertStatement {
    /// An insert into `table` that sets no column yet.
    pub fn into_table(table: &'static str) -> (r: InsertStatement)
        ensures
            r@ == InsertView::fresh(table@),
    {
        let r = InsertStatement { table, assignments: Vec::new(), on_conflict: None };
        assert(r@.columns =~= Seq::empty());
        assert(r@.values =~= Seq::empty());
        r
    }

    /// Sets one more column: `column` takes `value`.
    pub fn value(&mut self, column: &'static str, value: SqlValue)
        ensures
            final(self)@ == old(self)@.value(column@, value@),
    {
        self.assignments.push(Assignment { column, value });
        assert(assigned_columns(self.assignments@) =~= assigned_columns(
            old(self).assignments@,
        ).push(column@));
        assert(assigned_values(self.assignments@) =~= assigned_values(
            old(self).assignments@,
        ).push(value@));
    }

    /// Declares the conflict rule, in place of an earlier one.
    pub fn on_conflict(&mut self, on_conflict: OnConflict)
        ensures
            final(self)@ == old(self)@.on_conflict(on_conflict@),
    {
        self.on_conflict = Some(on_conflict);
    }

    /// Renders the insert. All columns of the stored row are asked back.
    pub fn build(&self) -> (r: Statement)
        ensures
            r@ == self@.rendered(),
    {
        let (columns, bounds, params) = split(&self.assignments);
        let sql = match &self.on_conflict {
            None => render_insert(self.table, &columns, bounds),
            Some(c) => render_upsert(self.table, &columns, bounds, &c.columns, &c.update_columns),
        };
        Statement { sql, params }
    }
}

/// What a [`SelectStatement`] holds.
pub ghost struct SelectView {
    pub table: Seq<char>,
    pub columns: Seq<Seq<char>>,
    pub values: Seq<SqlValueView>,
}

impl SelectView {
    /// The statement that the read renders to: the text names the table and
    /// the filtered columns, and the values to compare with are bound in the
    /// order of their columns.
    pub open spec fn rendered(self) -> StatementView {
        StatementView { sql: pg_select_text(self.table, self.columns), params: self.values }
    }

    /// A read of every row of `table`.
    pub open spec fn all_of(table: Seq<char>) -> SelectView {
        SelectView { table, columns: Seq::empty(), values: Seq::empty() }
    }

    /// This read, restricted to the rows whose `column` equals `value`.
    pub open spec fn and_where_eq(self, column: Seq<char>, value: SqlValueView) -> SelectView {
        SelectView {
            columns: self.columns.push(column),
            values: self.values.push(value),
            ..self
        }
    }
}

/// A read of all columns of one table under construction: the table and the
/// equality filters added so far, all of which a row must meet.
#[derive(Debug, PartialEq, Eq)]
pub struct SelectStatement {
    table: &'static str,
    filters: Vec<Assignment>,
}

impl View for SelectStatement {
    type V = SelectView;

    closed spec fn view(&self) -> SelectView {
        SelectView {
            table: self.table@,
            columns: assigned_columns(self.filters@),
            values: assigned_values(self.filters@),
        }
    }
}

impl SelectStatement {
    /// A read of every row of `table`.
    pub fn from(table: &'static str) -> (r: SelectStatement)
        ensures
            r@ == SelectView::all_of(table@),
    {
        let r = SelectStatement { table, filters: Vec::new() };
        assert(r@.columns =~= Seq::empty());
        assert(r@.values =~= Seq::empty());
        r
    }

    /// Restricts the read to the rows whose `column` equals `value`.
    pub fn and_where_eq(&mut self, column: &'static str, value: SqlValue)
        ensures
            final(self)@ == old(self)@.and_where_eq(column@, value@),
    {
        self.filters.push(Assignment { column, value });
        assert(assigned_columns(self.filters@) =~= assigned_columns(old(self).filters@).push(
            column@,
        ));
        assert(assigned_values(self.filters@) =~= assigned_values(old(self).filters@).push(
            value@,
        ));
    }

    /// Renders the read.
    pub fn build(&self) -> (r: Statement)
        ensures
            r@ == self@.rendered(),
    {
        let (columns, bounds, params) = split(&self.filters);
        let sql = render_select(self.table, &columns, bounds);
        Statement { sql, params }
    }
}

} // verus!
