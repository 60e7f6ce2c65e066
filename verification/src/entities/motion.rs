//! Motions: the stand that a participant takes in a vote. A participant has
//! at most one motion in a vote; a second one replaces the first.

use crate::attributes::{DBRecord, Entity, Insertable, Queryable, Validatable};
use crate::changeset::{Iden, TableRef, Valuable};
use crate::entities::participants::Participant;
use crate::entities::vote::Vote;
use crate::error::{BackendError, BackendErrorView, ChangeError, ParseError};
use crate::row::{decode_int, decode_opt_text, decode_text, decode_timestamp, CellView, Row};
use crate::statement::{
    pg_upsert_text, InsertStatement, InsertView, OnConflict, OnConflictView, SelectStatement,
    SelectView, Statement, StatementView,
};
use crate::value::{str_eq, SqlType, SqlValue, SqlValueView, Timestamp};
use vstd::prelude::*;
use vstd::std_specs::convert::TryFromSpecImpl;

verus! {

/// The columns of the table of motions.
#[derive(Clone, Copy, Debug, PartialEq, Eq, Structural)]
pub enum MotionIden {
    Id,
    VoteId,
    ParticipantId,
    Type,
    Comment,
    CreatedAt,
    UpdatedAt,
}

impl MotionIden {
    /// The name of the column.
    pub open spec fn spec_name(self) -> Seq<char> {
        match self {
            MotionIden::Id => "id"@,
            MotionIden::VoteId => "vote_id"@,
            MotionIden::ParticipantId => "participant_id"@,
            MotionIden::Type => "type"@,
            MotionIden::Comment => "comment"@,
            MotionIden::CreatedAt => "created_at"@,
            MotionIden::UpdatedAt => "updated_at"@,
        }
    }

    /// The name of the column.
    pub fn name(self) -> (s: &'static str)
        ensures
            s@ == self.spec_name(),
    {
        match self {
            MotionIden::Id => "id",
            MotionIden::VoteId => "vote_id",
            MotionIden::ParticipantId => "participant_id",
            MotionIden::Type => "type",
            MotionIden::Comment => "comment",
            MotionIden::CreatedAt => "created_at",
            MotionIden::UpdatedAt => "updated_at",
        }
    }
}

impl Iden for MotionIden {
    open spec fn spec_unquoted(&self) -> Seq<char> {
        self.spec_name()
    }

    fn unquoted(&self) -> (s: &'static str) {
        self.name()
    }
}

/// The stand taken.
#[derive(Clone, Copy, Debug, PartialEq, Eq, Hash, Structural)]
pub enum Type {
    Accept,
    Reject,
}

impl Type {
    /// The name under which the stand is stored: the variant in lower case.
    pub open spec fn spec_name(self) -> Seq<char> {
        match self {
            Type::Accept => "accept"@,
            Type::Reject => "reject"@,
        }
    }

    /// The stand that a stored name stands for, if it stands for one. Names
    /// are matched exactly.
    pub open spec fn parse(name: Seq<char>) -> Option<Type> {
        if name == "accept"@ {
            Some(Type::Accept)
        } else if name == "reject"@ {
            Some(Type::Reject)
        } else {
            None
        }
    }

    /// Every stand is read back from its name.
    pub proof fn lemma_name_round_trip(self)
        ensures
            Self::parse(self.spec_name()) == Some(self),
    {
        reveal_strlit("accept");
        reveal_strlit("reject");
        assert("accept"@[0] != "reject"@[0]);
    }

    /// The name under which the stand is stored.
    pub fn as_ref(&self) -> (s: &'static str)
        ensures
            s@ == self.spec_name(),
    {
        match self {
            Type::Accept => "accept",
            Type::Reject => "reject",
        }
    }

    /// Reads a stand from its stored name.
    pub fn from_str(value: &str) -> (r: Result<Type, ParseError>)
        ensures
            match r {
                Ok(t) => Self::parse(value@) == Some(t),
                Err(_) => Self::parse(value@) is None,
            },
    {
        if str_eq(value, "accept") {
            Ok(Type::Accept)
        } else if str_eq(value, "reject") {
            Ok(Type::Reject)
        } else {
            Err(ParseError::VariantNotFound)
        }
    }

    /// The value under which the stand is stored: its name as a text.
    pub fn to_value(&self) -> (v: SqlValue)
        ensures
            v@ == SqlValueView::Text(self.spec_name()),
    {
        SqlValue::Text(self.as_ref().to_owned())
    }

}

impl core::str::FromStr for Type {
    type Err = ParseError;

    fn from_str(value: &str) -> (r: Result<Type, ParseError>)
        ensures
            match r {
                Ok(t) => Type::parse(value@) == Some(t),
                Err(_) => Type::parse(value@) is None,
            },
    {
        Type::from_str(value)
    }
}

impl TryFrom<String> for Type {
    type Error = &'static str;

    /// Reads a stand from a stored text; an unknown text is refused with a
    /// message.
    fn try_from(value: String) -> (r: Result<Type, &'static str>)
        ensures
            match r {
                Ok(t) => Type::parse(value@) == Some(t),
                Err(m) => Type::parse(value@) is None && m@
                    == "Failed to serialize value to Motion::Type"@,
            },
    {
        match Type::from_str(value.as_str()) {
            Ok(t) => Ok(t),
            Err(_) => Err("Failed to serialize value to Motion::Type"),
        }
    }
}

impl TryFromSpecImpl<String> for Type {
    open spec fn obeys_try_from_spec() -> bool {
        true
    }

    open spec fn try_from_spec(value: String) -> Result<Type, &'static str> {
        match Type::parse(value@) {
            Some(t) => Ok(t),
            None => Err("Failed to serialize value to Motion::Type"),
        }
    }
}

impl Valuable for Type {
    open spec fn spec_value(&self) -> SqlValueView {
        SqlValueView::Text(self.spec_name())
    }

    fn value(&self) -> (v: SqlValue) {
        self.to_value()
    }
}

/// A stored motion.
#[derive(Debug, PartialEq, Eq)]
pub struct Motion {
    pub id: i32,
    pub vote_id: i32,
    pub participant_id: i32,
    pub type_: Type,
    pub comment: Option<String>,
    pub created_at: Timestamp,
    pub updated_at: Timestamp,
}

/// What a [`Motion`] holds.
pub ghost struct MotionView {
    pub id: i32,
    pub vote_id: i32,
    pub participant_id: i32,
    pub type_: Type,
    pub comment: Option<Seq<char>>,
    pub created_at: Timestamp,
    pub updated_at: Timestamp,
}

impl View for Motion {
    type V = MotionView;

    open spec fn view(&self) -> MotionView {
        MotionView {
            id: self.id,
            vote_id: self.vote_id,
            participant_id: self.participant_id,
            type_: self.type_,
            comment: match self.comment {
                Some(c) => Some(c@),
                None => None,
            },
            created_at: self.created_at,
            updated_at: self.updated_at,
        }
    }
}

/// The stand in the column `type`: the column must hold the name of a stand.
pub open spec fn decode_type(row: Seq<CellView>) -> Result<Type, BackendErrorView> {
    match decode_text(row, "type"@) {
        Err(e) => Err(e),
        Ok(name) => match Type::parse(name) {
            Some(t) => Ok(t),
            None => Err(BackendErrorView::ColumnDecode("type"@)),
        },
    }
}

impl TableRef for Motion {
    open spec fn spec_table_ref() -> Seq<char> {
        "motions"@
    }

    fn table_ref() -> (t: &'static str) {
        "motions"
    }
}

impl DBRecord for Motion {
    open spec fn key_of(record: MotionView) -> i32 {
        record.id
    }

    /// The columns are read in the order `id`, `vote_id`, `participant_id`,
    /// `type`, `comment`, `created_at`, `updated_at`; the first that cannot
    /// be read decides the error.
    open spec fn decode(row: Seq<CellView>) -> Result<MotionView, BackendErrorView> {
        match decode_int(row, "id"@) {
            Err(e) => Err(e),
            Ok(id) => match decode_int(row, "vote_id"@) {
                Err(e) => Err(e),
                Ok(vote_id) => match decode_int(row, "participant_id"@) {
                    Err(e) => Err(e),
                    Ok(participant_id) => match decode_type(row) {
                        Err(e) => Err(e),
                        Ok(type_) => match decode_opt_text(row, "comment"@) {
                            Err(e) => Err(e),
                            Ok(comment) => match decode_timestamp(row, "created_at"@) {
                                Err(e) => Err(e),
                                Ok(created_at) => match decode_timestamp(row, "updated_at"@) {
                                    Err(e) => Err(e),
                                    Ok(updated_at) => Ok(
                                        MotionView {
                                            id,
                                            vote_id,
                                            participant_id,
                                            type_,
                                            comment,
                                            created_at,
                                            updated_at,
                                        },
                                    ),
                                },
                            },
                        },
                    },
                },
            },
        }
    }

    fn primary_key(&self) -> (k: i32) {
        self.id
    }

    fn from_row(row: &Row) -> (r: Result<Self, BackendError>) {
        let id = row.get_int("id")?;
        let vote_id = row.get_int("vote_id")?;
        let participant_id = row.get_int("participant_id")?;
        let type_ = match Type::try_from(row.get_text("type")?) {
            Ok(t) => t,
            Err(_) => {
                return Err(BackendError::ColumnDecode("type".to_owned()));
            },
        };
        let comment = row.get_opt_text("comment")?;
        let created_at = row.get_timestamp("created_at")?;
        let updated_at = row.get_timestamp("updated_at")?;
        Ok(Motion { id, vote_id, participant_id, type_, comment, created_at, updated_at })
    }
}

/// A motion has no associations of its own: the record is the entity.
impl Entity for Motion {
    type Record = Motion;

    open spec fn spec_from_record(record: Motion) -> Motion {
        record
    }

    fn from_record(record: Motion) -> (e: Motion) {
        record
    }
}

/// What is needed to record the stand of a participant in a vote.
#[derive(Clone, Copy, Debug)]
pub struct MotionAttrs<'a> {
    pub vote: &'a Vote,
    pub participant: &'a Participant,
    pub type_: Type,
    pub comment: Option<&'a str>,
}

/// The conflict rule of motions: a participant has one motion in a vote, and
/// a further one replaces its stand and its comment and renews
/// `updated_at`.
pub open spec fn motion_conflict() -> OnConflictView {
    OnConflictView {
        columns: seq!["vote_id"@, "participant_id"@],
        update_columns: seq!["type"@, "comment"@, "updated_at"@],
    }
}

impl<'a> MotionAttrs<'a> {
    /// The insert of a motion: whatever the stand and the comment, the text
    /// is the same and declares the conflict rule of motions; only the bound
    /// values differ.
    pub proof fn lemma_insert(self)
        ensures
            self.injected(InsertView::fresh("motions"@)).rendered() == (StatementView {
                sql: pg_upsert_text(
                    "motions"@,
                    seq!["vote_id"@, "participant_id"@, "type"@, "comment"@],
                    seq!["vote_id"@, "participant_id"@],
                    seq!["type"@, "comment"@, "updated_at"@],
                ),
                params: seq![
                    SqlValueView::Int(self.vote.spec_id()),
                    SqlValueView::Int(self.participant.id),
                    SqlValueView::Text(self.type_.spec_name()),
                    match self.comment {
                        Some(c) => SqlValueView::Text(c@),
                        None => SqlValueView::Null(SqlType::Text),
                    },
                ],
            }),
    {
        let made = self.injected(InsertView::fresh("motions"@));
        assert(made.columns =~= seq!["vote_id"@, "participant_id"@, "type"@, "comment"@]);
        assert(made.values =~= seq![
            SqlValueView::Int(self.vote.spec_id()),
            SqlValueView::Int(self.participant.id),
            SqlValueView::Text(self.type_.spec_name()),
            match self.comment {
                Some(c) => SqlValueView::Text(c@),
                None => SqlValueView::Null(SqlType::Text),
            },
        ]);
    }
}

impl<'a> Validatable for MotionAttrs<'a> {
    open spec fn rules_apply(&self) -> bool {
        true
    }

    /// A motion has no rules to fail.
    open spec fn failures(&self) -> Seq<Seq<char>> {
        Seq::empty()
    }

    fn validate(&self) -> (r: Result<(), ChangeError>) {
        Ok(())
    }
}

impl<'a> Insertable for MotionAttrs<'a> {
    type Output = Motion;

    open spec fn injected(&self, starter_query: InsertView) -> InsertView {
        let comment = match self.comment {
            Some(c) => SqlValueView::Text(c@),
            None => SqlValueView::Null(SqlType::Text),
        };
        starter_query
            .value("vote_id"@, SqlValueView::Int(self.vote.spec_id()))
            .value("participant_id"@, SqlValueView::Int(self.participant.id))
            .value("type"@, SqlValueView::Text(self.type_.spec_name()))
            .value("comment"@, comment)
            .on_conflict(motion_conflict())
    }

    fn inject_values(self, starter_query: &mut InsertStatement) {
        starter_query.value(MotionIden::VoteId.name(), SqlValue::Int(*self.vote.id()));
        starter_query.value(MotionIden::ParticipantId.name(), SqlValue::Int(self.participant.id));
        starter_query.value(MotionIden::Type.name(), self.type_.to_value());
        starter_query.value(MotionIden::Comment.name(), SqlValue::from_opt_text(self.comment));
        let mut columns: Vec<&'static str> = Vec::new();
        columns.push(MotionIden::VoteId.name());
        columns.push(MotionIden::ParticipantId.name());
        let mut update_columns: Vec<&'static str> = Vec::new();
        update_columns.push(MotionIden::Type.name());
        update_columns.push(MotionIden::Comment.name());
        update_columns.push(MotionIden::UpdatedAt.name());
        let rule = OnConflict { columns, update_columns };
        assert(rule@.columns =~= motion_conflict().columns);
        assert(rule@.update_columns =~= motion_conflict().update_columns);
        starter_query.on_conflict(rule);
    }
}

/// A read of motions by any of vote, participant and stand. A criterion that
/// is not supplied does not restrict the read; with none supplied the read
/// yields every motion.
#[derive(Clone, Copy, Debug)]
pub struct MotionQuery<'a> {
    pub vote: Option<&'a Vote>,
    pub participant: Option<&'a Participant>,
    pub type_: Option<Type>,
}

impl<'a> MotionQuery<'a> {
    /// The read restricted by the vote, if one is supplied.
    pub open spec fn by_vote(&self, q: SelectView) -> SelectView {
        match self.vote {
            Some(v) => q.and_where_eq("vote_id"@, SqlValueView::Int(v.spec_id())),
            None => q,
        }
    }

    /// The read restricted by the participant, if one is supplied.
    pub open spec fn by_participant(&self, q: SelectView) -> SelectView {
        match self.participant {
            Some(p) => q.and_where_eq("participant_id"@, SqlValueView::Int(p.id)),
            None => q,
        }
    }

    /// The read restricted by the stand, if one is supplied.
    pub open spec fn by_type(&self, q: SelectView) -> SelectView {
        match self.type_ {
            Some(t) => q.and_where_eq("type"@, SqlValueView::Text(t.spec_name())),
            None => q,
        }
    }
}

impl<'a> Queryable for MotionQuery<'a> {
    type Output = Motion;

    /// The filters come in the order vote, participant, stand.
    open spec fn selection(&self) -> SelectView {
        self.by_type(self.by_participant(self.by_vote(SelectView::all_of("motions"@))))
    }

    fn to_sql(&self) -> (r: Statement) {
        let mut query = SelectStatement::from("motions");
        if let Some(v) = self.vote {
            query.and_where_eq(MotionIden::VoteId.name(), SqlValue::Int(*v.id()));
        }
        if let Some(p) = self.participant {
            query.and_where_eq(MotionIden::ParticipantId.name(), SqlValue::Int(p.primary_key()));
        }
        if let Some(t) = self.type_ {
            query.and_where_eq(MotionIden::Type.name(), t.to_value());
        }
        query.build()
    }
}

/// The read that fills the motions of a vote.
#[derive(Clone, Copy, Debug, PartialEq, Eq)]
pub struct MotionAssocQuery {
    pub vote_id: i32,
}

impl Queryable for MotionAssocQuery {
    type Output = Motion;

    open spec fn selection(&self) -> SelectView {
        SelectView::all_of("motions"@).and_where_eq("vote_id"@, SqlValueView::Int(self.vote_id))
    }

    fn to_sql(&self) -> (r: Statement) {
        let mut query = SelectStatement::from("motions");
        query.and_where_eq(MotionIden::VoteId.name(), SqlValue::Int(self.vote_id));
        query.build()
    }
}

} // verus!
