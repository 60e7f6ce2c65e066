//! Changesets: proposed changes to the columns of one row, each with the
//! rules it must pass, checked together and compiled into an insert.

use crate::attributes::{DBRecord, Insertable, Validatable};
use crate::error::ChangeError;
use crate::statement::{InsertStatement, InsertView, Statement};
use crate::value::{names_view, str_eq, SqlValue, SqlValueView};
use vstd::prelude::*;

verus! {

/// A type whose values all live in one table.
pub trait TableRef {
    /// The name of the table.
    open spec fn spec_table_ref() -> Seq<char> {
        arbitrary()
    }

    fn table_ref() -> (t: &'static str)
        ensures
            t@ == Self::spec_table_ref(),
    ;
}

/// Something that names a column. Two proposed changes are for the same
/// logical attribute exactly when they name the same column.
pub trait Iden {
    /// The name, without quotes.
    open spec fn spec_unquoted(&self) -> Seq<char> {
        arbitrary()
    }

    fn unquoted(&self) -> (s: &'static str)
        ensures
            s@ == self.spec_unquoted(),
    ;
}

/// Something that proposes a value for a column.
pub trait Valuable {
    /// The proposed value.
    open spec fn spec_value(&self) -> SqlValueView {
        arbitrary()
    }

    fn value(&self) -> (v: SqlValue)
        ensures
            v@ == self.spec_value(),
    ;
}

/// What a rule says of an attribute: nothing if it passes, its message if it
/// fails.
pub open spec fn verdict(answer: Result<(), &'static str>) -> Option<Seq<char>> {
    match answer {
        Ok(_) => None,
        Err(message) => Some(message@),
    }
}

/// Whether `rule` is a rule for `attr`: it can be applied to it, and what it
/// says of it is determined.
pub open spec fn rule_applies<Attr, V: Fn(&Attr) -> Result<(), &'static str>>(
    rule: V,
    attr: Attr,
) -> bool {
    &&& call_requires(rule, (&attr,))
    &&& forall|a: Result<(), &'static str>, b: Result<(), &'static str>|
        call_ensures(rule, (&attr,), a) && call_ensures(rule, (&attr,), b) ==> verdict(a)
            == verdict(b)
}

/// What `rule` says of `attr`.
pub open spec fn rule_verdict<Attr, V: Fn(&Attr) -> Result<(), &'static str>>(
    rule: V,
    attr: Attr,
) -> Option<Seq<char>> {
    verdict(choose|answer: Result<(), &'static str>| call_ensures(rule, (&attr,), answer))
}

/// The messages of the rules among `rules` that `attr` fails, in the order of
/// the rules.
pub open spec fn rule_failures<Attr, V: Fn(&Attr) -> Result<(), &'static str>>(
    attr: Attr,
    rules: Seq<V>,
) -> Seq<Seq<char>>
    decreases rules.len(),
{
    if rules.len() == 0 {
        Seq::empty()
    } else {
        let earlier = rule_failures(attr, rules.drop_last());
        match rule_verdict(rules.last(), attr) {
            None => earlier,
            Some(message) => earlier.push(message),
        }
    }
}

/// One proposed change: the attribute with its new value, and the rules that
/// the change must pass.
pub struct Change<Attr, V> {
    pub attr: Attr,
    pub validations: Vec<V>,
}

impl<Attr, V> Change<Attr, V> {
    /// A change with the given rules, or with none.
    pub fn new(attr: Attr, validations: Option<Vec<V>>) -> (r: Self)
        ensures
            r.attr == attr,
            r.validations@ == (match validations {
                Some(rules) => rules@,
                None => Seq::empty(),
            }),
    {
        if let Some(validation_vec) = validations {
            Change { attr, validations: validation_vec }
        } else {
            Change { attr, validations: Vec::new() }
        }
    }
}

/// The messages of all rules that fail in `changes`: change by change, and
/// rule by rule within a change.
pub open spec fn all_failures<Attr, V: Fn(&Attr) -> Result<(), &'static str>>(
    changes: Seq<Change<Attr, V>>,
) -> Seq<Seq<char>>
    decreases changes.len(),
{
    if changes.len() == 0 {
        Seq::empty()
    } else {
        all_failures(changes.drop_last()) + rule_failures(
            changes.last().attr,
            changes.last().validations@,
        )
    }
}

/// Whether `attr` fails one of `rules` with the message `message`.
pub open spec fn rule_fails_with<Attr, V: Fn(&Attr) -> Result<(), &'static str>>(
    attr: Attr,
    rules: Seq<V>,
    message: Seq<char>,
) -> bool {
    exists|k: int| 0 <= k < rules.len() && rule_verdict(#[trigger] rules[k], attr) == Some(message)
}

/// Whether one of `changes` fails one of its rules with the message
/// `message`.
pub open spec fn fails_with<Attr, V: Fn(&Attr) -> Result<(), &'static str>>(
    changes: Seq<Change<Attr, V>>,
    message: Seq<char>,
) -> bool {
    exists|i: int|
        0 <= i < changes.len() && rule_fails_with(
            (#[trigger] changes[i]).attr,
            changes[i].validations@,
            message,
        )
}

/// The failures of one change are exactly the messages of the rules that it
/// fails.
pub proof fn lemma_rule_failures<Attr, V: Fn(&Attr) -> Result<(), &'static str>>(
    attr: Attr,
    rules: Seq<V>,
    message: Seq<char>,
)
    ensures
        rule_failures(attr, rules).contains(message) <==> rule_fails_with(attr, rules, message),
    decreases rules.len(),
{
    if rules.len() > 0 {
        let earlier = rules.drop_last();
        lemma_rule_failures(attr, earlier, message);
        let before = rule_failures(attr, earlier);
        if rule_fails_with(attr, rules, message) {
            let k = choose|k: int|
                0 <= k < rules.len() && rule_verdict(#[trigger] rules[k], attr) == Some(message);
            if k < rules.len() - 1 {
                assert(earlier[k] == rules[k]);
                let at = choose|j: int| 0 <= j < before.len() && before[j] == message;
                assert(rule_failures(attr, rules)[at] == message);
            } else {
                assert(before.push(message)[before.len() as int] == message);
            }
        }
    }
}

/// Validation reports exactly the failing rules: a message is among the
/// failures of a changeset if and only if some rule of some change fails
/// with it. So the failures are empty exactly when no rule fails.
pub proof fn lemma_failures_are_the_failing_rules<
    Attr,
    V: Fn(&Attr) -> Result<(), &'static str>,
>(changes: Seq<Change<Attr, V>>, message: Seq<char>)
    ensures
        all_failures(changes).contains(message) <==> fails_with(changes, message),
    decreases changes.len(),
{
    if changes.len() > 0 {
        let earlier = changes.drop_last();
        let last = changes.last();
        lemma_failures_are_the_failing_rules(earlier, message);
        lemma_rule_failures(last.attr, last.validations@, message);
        let before = all_failures(earlier);
        let added = rule_failures(last.attr, last.validations@);
        if fails_with(changes, message) {
            let i = choose|i: int|
                0 <= i < changes.len() && rule_fails_with(
                    (#[trigger] changes[i]).attr,
                    changes[i].validations@,
                    message,
                );
            if i < changes.len() - 1 {
                assert(earlier[i] == changes[i]);
                let at = choose|j: int| 0 <= j < before.len() && before[j] == message;
                assert((before + added)[at] == message);
            } else {
                let at = choose|j: int| 0 <= j < added.len() && added[j] == message;
                assert((before + added)[before.len() + at] == message);
            }
        }
    }
}

/// Whether one of `changes` names the column `name`.
pub open spec fn names_column<Attr: Iden, V>(
    changes: Seq<Change<Attr, V>>,
    name: Seq<char>,
) -> bool {
    exists|i: int| 0 <= i < changes.len() && (#[trigger] changes[i]).attr.spec_unquoted() == name
}

/// Whether no two of `changes` name the same column.
pub open spec fn distinct_columns<Attr: Iden, V>(changes: Seq<Change<Attr, V>>) -> bool {
    forall|i: int, j: int|
        #![trigger changes[i], changes[j]]
        0 <= i < j < changes.len() ==> changes[i].attr.spec_unquoted()
            != changes[j].attr.spec_unquoted()
}

/// The columns that `changes` name, in order.
pub open spec fn changed_columns<Attr: Iden, V>(changes: Seq<Change<Attr, V>>) -> Seq<Seq<char>> {
    changes.map_values(|c: Change<Attr, V>| c.attr.spec_unquoted())
}

/// The values that `changes` propose, in order.
pub open spec fn changed_values<Attr: Valuable, V>(changes: Seq<Change<Attr, V>>) -> Seq<
    SqlValueView,
> {
    changes.map_values(|c: Change<Attr, V>| c.attr.spec_value())
}

/// A second change for a column that the changeset already changes.
#[derive(Debug, PartialEq, Eq)]
pub struct DuplicateChange {
    /// The column that was named twice.
    pub column: &'static str,
}

/// Pending changes to the columns of one row of `Data`'s table. No column is
/// changed twice.
pub struct Changeset<Attr: Iden, Data, V: Fn(&Attr) -> Result<(), &'static str>> {
    changes: Vec<Change<Attr, V>>,
    data: Option<Data>,
}

impl<Attr: Iden, Data, V: Fn(&Attr) -> Result<(), &'static str>> Changeset<Attr, Data, V> {
    /// The invariant of a changeset: no column is changed twice, and every
    /// rule is a rule for the attribute it guards.
    pub closed spec fn well_formed(&self) -> bool {
        &&& distinct_columns(self.changes@)
        &&& forall|i: int, k: int|
            0 <= i < self.changes.len() && 0 <= k < self.changes[i].validations.len()
                ==> rule_applies(#[trigger] self.changes[i].validations[k], self.changes[i].attr)
    }

    /// At most one change is pending for each column.
    pub proof fn lemma_one_change_per_column(self)
        requires
            self.well_formed(),
        ensures
            distinct_columns(self.changes()),
    {
    }

    /// The pending changes, in the order in which they were added.
    pub closed spec fn changes(&self) -> Seq<Change<Attr, V>> {
        self.changes@
    }

    /// The record that the changes start from, if there is one.
    pub closed spec fn backing_data(&self) -> Option<Data> {
        self.data
    }

    /// A changeset without changes.
    pub fn new(backing_data: Option<Data>) -> (r: Self)
        ensures
            r.well_formed(),
            r.rules_apply(),
            r.changes().len() == 0,
            r.backing_data() == backing_data,
    {
        Changeset { changes: Vec::new(), data: backing_data }
    }

    /// Whether the changeset already changes the column `name`.
    pub fn changes_column(&self, name: &str) -> (r: bool)
        ensures
            r == names_column(self.changes(), name@),
    {
        let mut i: usize = 0;
        while i < self.changes.len()
            invariant
                0 <= i <= self.changes.len(),
                forall|j: int| 0 <= j < i ==> (#[trigger] self.changes[j]).attr.spec_unquoted()
                    != name@,
            decreases self.changes.len() - i,
        {
            if str_eq(self.changes[i].attr.unquoted(), name) {
                return true;
            }
            i += 1;
        }
        false
    }

    /// Adds a change with its rules. The column must not be changed already:
    /// a second change for a column is an error of the caller's, which
    /// [`Changeset::try_add_change`] reports instead.
    pub fn add_change(&mut self, change: Attr, validations: Option<Vec<V>>) -> (ret: &mut Self)
        requires
            old(self).well_formed(),
            !names_column(old(self).changes(), change.spec_unquoted()),
            validations matches Some(rules) ==> forall|k: int|
                0 <= k < rules.len() ==> rule_applies(#[trigger] rules[k], change),
        ensures
            ret.well_formed(),
            ret.rules_apply(),
            ret.changes().len() == old(self).changes().len() + 1,
            ret.changes().drop_last() == old(self).changes(),
            ret.changes().last().attr == change,
            ret.changes().last().validations@ == (match validations {
                Some(rules) => rules@,
                None => Seq::empty(),
            }),
            ret.backing_data() == old(self).backing_data(),
            *final(self) == *final(ret),
    {
        let added = Change::new(change, validations);
        self.changes.push(added);
        self
    }

    /// Adds a change with its rules, unless the column is changed already. A
    /// second change for a column is rejected and leaves the changeset as it
    /// was; it neither replaces the first nor merges with it.
    pub fn try_add_change(&mut self, change: Attr, validations: Option<Vec<V>>) -> (r: Result<
        (),
        DuplicateChange,
    >)
        requires
            old(self).well_formed(),
            validations matches Some(rules) ==> forall|k: int|
                0 <= k < rules.len() ==> rule_applies(#[trigger] rules[k], change),
        ensures
            final(self).well_formed(),
            final(self).rules_apply(),
            final(self).backing_data() == old(self).backing_data(),
            match r {
                Ok(_) => {
                    &&& !names_column(old(self).changes(), change.spec_unquoted())
                    &&& final(self).changes().len() == old(self).changes().len() + 1
                    &&& final(self).changes().drop_last() == old(self).changes()
                    &&& final(self).changes().last().attr == change
                    &&& final(self).changes().last().validations@ == (match validations {
                        Some(rules) => rules@,
                        None => Seq::empty(),
                    })
                },
                Err(e) => {
                    &&& names_column(old(self).changes(), change.spec_unquoted())
                    &&& e.column@ == change.spec_unquoted()
                    &&& final(self).changes() == old(self).changes()
                },
            },
    {
        let column = change.unquoted();
        if self.changes_column(column) {
            Err(DuplicateChange { column })
        } else {
            self.add_change(change, validations);
            Ok(())
        }
    }

    /// How many changes are pending.
    pub fn len(&self) -> (n: usize)
        ensures
            n == self.changes().len(),
    {
        self.changes.len()
    }

    /// The attribute of the `i`-th change.
    pub fn attr(&self, i: usize) -> (a: &Attr)
        requires
            i < self.changes().len(),
        ensures
            *a == self.changes()[i as int].attr,
    {
        &self.changes[i].attr
    }
}

impl<Attr: Iden, Data, V: Fn(&Attr) -> Result<(), &'static str>> Validatable for Changeset<
    Attr,
    Data,
    V,
> {
    open spec fn rules_apply(&self) -> bool {
        self.well_formed()
    }

    open spec fn failures(&self) -> Seq<Seq<char>> {
        all_failures(self.changes())
    }

    fn validate(&self) -> (r: Result<(), ChangeError>) {
        let mut errors_acc: Vec<&'static str> = Vec::new();
        let mut i: usize = 0;
        while i < self.changes.len()
            invariant
                0 <= i <= self.changes.len(),
                names_view(errors_acc@) == all_failures(self.changes@.take(i as int)),
                forall|i: int, k: int|
                    0 <= i < self.changes.len() && 0 <= k < self.changes[i].validations.len()
                        ==> rule_applies(
                        #[trigger] self.changes[i].validations[k],
                        self.changes[i].attr,
                    ),
            decreases self.changes.len() - i,
        {
            let change = &self.changes[i];
            let ghost before = names_view(errors_acc@);
            let mut k: usize = 0;
            while k < change.validations.len()
                invariant
                    0 <= k <= change.validations.len(),
                    names_view(errors_acc@) == before + rule_failures(
                        change.attr,
                        change.validations@.take(k as int),
                    ),
                    forall|j: int|
                        0 <= j < change.validations.len() ==> rule_applies(
                            #[trigger] change.validations[j],
                            change.attr,
                        ),
                decreases change.validations.len() - k,
            {
                let rule = &change.validations[k];
                let ghost rules = change.validations@.take(k + 1);
                let answer = rule(&change.attr);
                proof {
                    assert(rules.drop_last() =~= change.validations@.take(k as int));
                    assert(rule_verdict(*rule, change.attr) == verdict(answer));
                }
                match answer {
                    Ok(_) => {},
                    Err(message) => {
                        errors_acc.push(message);
                        proof {
                            assert(before + rule_failures(change.attr, rules) =~= (before
                                + rule_failures(change.attr, rules.drop_last())).push(message@));
                        }
                    },
                }
                k += 1;
            }
            proof {
                assert(change.validations@.take(k as int) =~= change.validations@);
                let longer = self.changes@.take(i + 1);
                assert(longer.drop_last() =~= self.changes@.take(i as int));
            }
            i += 1;
        }
        proof {
            assert(self.changes@.take(i as int) =~= self.changes@);
        }
        if errors_acc.len() > 0 {
            Err(ChangeError::ValidationError(errors_acc))
        } else {
            Ok(())
        }
    }
}

/// What compiling `changes` adds to an insert: each change sets its column to
/// its value, in order.
pub open spec fn with_changes<Attr: Iden + Valuable, V>(
    starter_query: InsertView,
    changes: Seq<Change<Attr, V>>,
) -> InsertView {
    InsertView {
        columns: starter_query.columns + changed_columns(changes),
        values: starter_query.values + changed_values(changes),
        ..starter_query
    }
}

impl<Attr: Iden + Valuable, Data, V: Fn(&Attr) -> Result<(), &'static str>> Changeset<
    Attr,
    Data,
    V,
> {
    /// Adds a column with its value to `starter_query` for each change.
    fn inject(&self, starter_query: &mut InsertStatement)
        ensures
            final(starter_query)@ == with_changes(old(starter_query)@, self.changes()),
    {
        let mut i: usize = 0;
        while i < self.changes.len()
            invariant
                0 <= i <= self.changes.len(),
                starter_query@ == with_changes(old(starter_query)@, self.changes@.take(i as int)),
            decreases self.changes.len() - i,
        {
            let attr = &self.changes[i].attr;
            starter_query.value(attr.unquoted(), attr.value());
            proof {
                let longer = self.changes@.take(i + 1);
                assert(starter_query@.columns =~= old(starter_query)@.columns + changed_columns(
                    longer,
                ));
                assert(starter_query@.values =~= old(starter_query)@.values + changed_values(
                    longer,
                ));
            }
            i += 1;
        }
        proof {
            assert(self.changes@.take(i as int) =~= self.changes@);
        }
    }
}

impl<Attr: Iden + Valuable, Data: TableRef, V: Fn(&Attr) -> Result<(), &'static str>> Changeset<
    Attr,
    Data,
    V,
> {
    /// Compiles the changes into an insert into `Data`'s table that sets
    /// exactly the changed columns and asks all columns of the stored row
    /// back.
    pub fn to_sql(&self) -> (r: Statement)
        ensures
            r@ == with_changes(
                InsertView::fresh(Data::spec_table_ref()),
                self.changes(),
            ).rendered(),
    {
        let mut query = InsertStatement::into_table(Data::table_ref());
        self.inject(&mut query);
        query.build()
    }
}

impl<
    Attr: Iden + Valuable,
    Data: DBRecord,
    V: Fn(&Attr) -> Result<(), &'static str>,
> Insertable for Changeset<Attr, Data, V> {
    type Output = Data;

    open spec fn injected(&self, starter_query: InsertView) -> InsertView {
        with_changes(starter_query, self.changes())
    }

    fn inject_values(self, starter_query: &mut InsertStatement) {
        self.inject(starter_query);
    }
}

} // verus!
