//! Votes on requests for comments. A vote has a deadline, after which no
//! motion is taken any more.

use crate::api_error::APIError;
use crate::assocs::{AssociationLoader, HasMany, Multiplicity};
use crate::attributes::{DBRecord, Entity, Insertable, Queryable, Validatable};
use crate::changeset::TableRef;
use crate::entities::motion::{Motion, MotionAssocQuery, MotionAttrs};
use crate::entities::participants::Participant;
use crate::error::{BackendError, BackendErrorView, ChangeError, ChangeErrorView};
use crate::repo::{fetched_view, one_of, Request};
use crate::row::{decode_int, decode_timestamp, CellView, Row};
use crate::statement::{InsertStatement, InsertView, SelectStatement, SelectView, Statement};
use crate::value::{
    instant_in_range, last_instant, utc_text, SqlType, SqlValue, SqlValueView, Timestamp,
    MAX_SECS, SECS_PER_DAY,
};
use vstd::prelude::*;
use vstd::std_specs::convert::FromSpecImpl;
use vstd::string::StringExecFns;

verus! {

/// A stored vote.
#[derive(Debug, PartialEq, Eq)]
pub struct VoteRow {
    pub id: i32,
    pub rfc_id: i32,
    pub deadline: Timestamp,
    pub created_at: Timestamp,
    pub updated_at: Timestamp,
}

/// What a [`VoteRow`] holds.
pub ghost struct VoteRowView {
    pub id: i32,
    pub rfc_id: i32,
    pub deadline: Timestamp,
    pub created_at: Timestamp,
    pub updated_at: Timestamp,
}

impl View for VoteRow {
    type V = VoteRowView;

    open spec fn view(&self) -> VoteRowView {
        VoteRowView {
            id: self.id,
            rfc_id: self.rfc_id,
            deadline: self.deadline,
            created_at: self.created_at,
            updated_at: self.updated_at,
        }
    }
}

impl TableRef for VoteRow {
    open spec fn spec_table_ref() -> Seq<char> {
        "votes"@
    }

    fn table_ref() -> (t: &'static str) {
        "votes"
    }
}

impl DBRecord for VoteRow {
    open spec fn key_of(record: VoteRowView) -> i32 {
        record.id
    }

    /// The columns are read in the order `id`, `rfc_id`, `deadline`,
    /// `created_at`, `updated_at`; the first that cannot be read decides the
    /// error.
    open spec fn decode(row: Seq<CellView>) -> Result<VoteRowView, BackendErrorView> {
        match decode_int(row, "id"@) {
            Err(e) => Err(e),
            Ok(id) => match decode_int(row, "rfc_id"@) {
                Err(e) => Err(e),
                Ok(rfc_id) => match decode_timestamp(row, "deadline"@) {
                    Err(e) => Err(e),
                    Ok(deadline) => match decode_timestamp(row, "created_at"@) {
                        Err(e) => Err(e),
                        Ok(created_at) => match decode_timestamp(row, "updated_at"@) {
                            Err(e) => Err(e),
                            Ok(updated_at) => Ok(
                                VoteRowView { id, rfc_id, deadline, created_at, updated_at },
                            ),
                        },
                    },
                },
            },
        }
    }

    fn primary_key(&self) -> (k: i32) {
        self.id
    }

    fn from_row(row: &Row) -> (r: Result<Self, BackendError>) {
        let id = row.get_int("id")?;
        let rfc_id = row.get_int("rfc_id")?;
        let deadline = row.get_timestamp("deadline")?;
        let created_at = row.get_timestamp("created_at")?;
        let updated_at = row.get_timestamp("updated_at")?;
        Ok(VoteRow { id, rfc_id, deadline, created_at, updated_at })
    }
}

/// A number of whole days.
#[derive(Clone, Copy, Debug, PartialEq, Eq, Structural)]
pub struct Days(pub u64);

impl Days {
    pub fn new(num: u64) -> (r: Days)
        ensures
            r.0 == num,
    {
        Days(num)
    }
}

/// What is needed to store a new vote, and at the same time the read of the
/// votes of one request for comments.
#[derive(Clone, Copy, Debug, PartialEq, Eq)]
pub struct VoteAttrs {
    pub rfc_id: i32,
    pub deadline: Option<Timestamp>,
}

impl VoteAttrs {
    /// Whether the instant `default_deadline` after `now` can be held.
    pub open spec fn default_in_range(now: Timestamp, default_deadline: Days) -> bool {
        now.spec_secs() + SECS_PER_DAY * default_deadline.0 <= MAX_SECS
    }

    /// Whether `deadline` is what the defaults give at `now`: the deadline
    /// that was supplied, or else the instant `default_deadline` after `now`.
    pub open spec fn defaulted(
        supplied: Option<Timestamp>,
        now: Timestamp,
        default_deadline: Days,
        deadline: Option<Timestamp>,
    ) -> bool {
        match supplied {
            Some(d) => deadline == Some(d),
            None => {
                &&& deadline matches Some(d)
                &&& d.spec_secs() == now.spec_secs() + SECS_PER_DAY * default_deadline.0
                &&& d.spec_nanos() == now.spec_nanos()
            },
        }
    }

    /// Whether filling in the defaults as of the instant `now` turns `before`
    /// into `after` and answers `done`: the request stays; where the instant
    /// `default_deadline` after `now` can be held, the answer is `true` and
    /// the deadline is the supplied one or else that instant; where it cannot,
    /// the answer is `false` and nothing changes.
    pub open spec fn defaults_at(
        before: VoteAttrs,
        now: Timestamp,
        default_deadline: Days,
        done: bool,
        after: VoteAttrs,
    ) -> bool {
        &&& after.rfc_id == before.rfc_id
        &&& done == Self::default_in_range(now, default_deadline)
        &&& done ==> Self::defaulted(before.deadline, now, default_deadline, after.deadline)
        &&& !done ==> after == before
    }

    /// Fills in what was not supplied, as of the instant `now`: a vote without
    /// a deadline gets the one `default_deadline` after `now`. Nothing is
    /// done, and `false` returned, exactly when that instant cannot be held.
    pub fn add_defaults_at(&mut self, now: Timestamp, default_deadline: Days) -> (r: bool)
        ensures
            final(self).rfc_id == old(self).rfc_id,
            r == Self::default_in_range(now, default_deadline),
            r ==> Self::defaulted(old(self).deadline, now, default_deadline, final(self).deadline),
            !r ==> *final(self) == *old(self),
    {
        match now.checked_add_days(default_deadline.0) {
            None => false,
            Some(default) => {
                if self.deadline.is_none() {
                    self.deadline = Some(default);
                }
                true
            },
        }
    }

    /// Fills in what was not supplied, as of now: what
    /// [`VoteAttrs::add_defaults_at`] does at the instant that the clock
    /// gives, which is in range and not before the Unix epoch. A vote with a
    /// deadline keeps it; one without gets a deadline `default_deadline` from
    /// now. Nothing is done, and `false` returned, when that instant cannot
    /// be held: never for a default of no days, always for one that even from
    /// the epoch leads out of range.
    pub fn add_defaults(&mut self, default_deadline: Days) -> (r: bool)
        ensures
            exists|now: Timestamp|
                {
                    &&& now.spec_secs() >= 0
                    &&& instant_in_range(now.spec_secs(), now.spec_nanos())
                    &&& #[trigger] Self::defaults_at(
                        *old(self),
                        now,
                        default_deadline,
                        r,
                        *final(self),
                    )
                },
            final(self).rfc_id == old(self).rfc_id,
            r ==> final(self).deadline is Some,
            r && old(self).deadline is Some ==> final(self).deadline == old(self).deadline,
            !r ==> *final(self) == *old(self),
            default_deadline.0 == 0 ==> r,
            SECS_PER_DAY * default_deadline.0 > MAX_SECS ==> !r,
    {
        let now = Timestamp::now();
        let r = self.add_defaults_at(now, default_deadline);
        assert(Self::defaults_at(*old(self), now, default_deadline, r, *self));
        r
    }
}

impl Insertable for VoteAttrs {
    type Output = VoteRow;

    open spec fn injected(&self, starter_query: InsertView) -> InsertView {
        let deadline = match self.deadline {
            Some(t) => SqlValueView::Timestamp(t),
            None => SqlValueView::Null(SqlType::Timestamp),
        };
        starter_query.value("rfc_id"@, SqlValueView::Int(self.rfc_id)).value("deadline"@, deadline)
    }

    fn inject_values(self, starter_query: &mut InsertStatement) {
        starter_query.value("rfc_id", SqlValue::Int(self.rfc_id));
        starter_query.value("deadline", SqlValue::from_opt_timestamp(self.deadline));
    }
}

impl Queryable for VoteAttrs {
    type Output = VoteRow;

    /// The votes of the request for comments; the deadline is no criterion.
    open spec fn selection(&self) -> SelectView {
        SelectView::all_of("votes"@).and_where_eq("rfc_id"@, SqlValueView::Int(self.rfc_id))
    }

    fn to_sql(&self) -> (r: Statement) {
        let mut query = SelectStatement::from("votes");
        query.and_where_eq("rfc_id", SqlValue::Int(self.rfc_id));
        query.build()
    }
}

impl Validatable for VoteAttrs {
    open spec fn rules_apply(&self) -> bool {
        true
    }

    /// A vote has no rules to fail.
    open spec fn failures(&self) -> Seq<Seq<char>> {
        Seq::empty()
    }

    fn validate(&self) -> (r: Result<(), ChangeError>) {
        Ok(())
    }
}

/// A vote with its motions, which are loaded on demand.
#[derive(Debug, PartialEq, Eq)]
pub struct Vote {
    id: i32,
    rfc_id: i32,
    deadline: Timestamp,
    created_at: Timestamp,
    updated_at: Timestamp,
    motions: HasMany<Motion, MotionAssocQuery>,
}

impl Vote {
    pub closed spec fn spec_id(&self) -> i32 {
        self.id
    }

    pub closed spec fn spec_rfc_id(&self) -> i32 {
        self.rfc_id
    }

    pub closed spec fn spec_deadline(&self) -> Timestamp {
        self.deadline
    }

    pub closed spec fn spec_created_at(&self) -> Timestamp {
        self.created_at
    }

    pub closed spec fn spec_updated_at(&self) -> Timestamp {
        self.updated_at
    }

    /// The association to the motions of this vote.
    pub closed spec fn spec_motions(&self) -> HasMany<Motion, MotionAssocQuery> {
        self.motions
    }

    pub fn id(&self) -> (r: &i32)
        ensures
            *r == self.spec_id(),
    {
        &self.id
    }

    pub fn rfc_id(&self) -> (r: &i32)
        ensures
            *r == self.spec_rfc_id(),
    {
        &self.rfc_id
    }

    pub fn deadline(&self) -> (r: &Timestamp)
        ensures
            *r == self.spec_deadline(),
    {
        &self.deadline
    }

    pub fn created_at(&self) -> (r: &Timestamp)
        ensures
            *r == self.spec_created_at(),
    {
        &self.created_at
    }

    pub fn updated_at(&self) -> (r: &Timestamp)
        ensures
            *r == self.spec_updated_at(),
    {
        &self.updated_at
    }

    /// Whether `time` lies after the deadline. At the deadline itself the
    /// vote is still open.
    pub fn is_time_past_deadline(&self, time: Timestamp) -> (r: bool)
        ensures
            r == (time.instant() > self.spec_deadline().instant()),
    {
        time.is_after(&self.deadline)
    }

    /// The vote that a stored vote yields: the same values, and the motions
    /// of the vote not loaded yet.
    pub closed spec fn of_row(value: VoteRow) -> Vote {
        Vote {
            id: value.id,
            rfc_id: value.rfc_id,
            deadline: value.deadline,
            created_at: value.created_at,
            updated_at: value.updated_at,
            motions: HasMany::unloaded(MotionAssocQuery { vote_id: value.id }),
        }
    }

    /// Makes the vote that a stored vote yields.
    pub fn new(value: VoteRow) -> (r: Vote)
        ensures
            r == Self::of_row(value),
    {
        Vote {
            id: value.id,
            rfc_id: value.rfc_id,
            deadline: value.deadline,
            created_at: value.created_at,
            updated_at: value.updated_at,
            motions: HasMany::new(MotionAssocQuery { vote_id: value.id }),
        }
    }

    /// A vote made from a stored vote has its values; its motions are not
    /// loaded and will be read by the id of the vote.
    pub proof fn lemma_of_row(value: VoteRow)
        ensures
            Self::of_row(value).spec_id() == value.id,
            Self::of_row(value).spec_rfc_id() == value.rfc_id,
            Self::of_row(value).spec_deadline() == value.deadline,
            Self::of_row(value).spec_created_at() == value.created_at,
            Self::of_row(value).spec_updated_at() == value.updated_at,
            Self::of_row(value).spec_motions().loadable() is NotLoaded,
            Self::of_row(value).spec_motions().spec_query() == (MotionAssocQuery {
                vote_id: value.id,
            }),
    {
        HasMany::<Motion, MotionAssocQuery>::lemma_unloaded(MotionAssocQuery { vote_id: value.id });
    }
}

impl From<VoteRow> for Vote {
    fn from(value: VoteRow) -> (r: Vote) {
        Vote::new(value)
    }
}

impl FromSpecImpl<VoteRow> for Vote {
    open spec fn obeys_from_spec() -> bool {
        true
    }

    open spec fn from_spec(value: VoteRow) -> Vote {
        Vote::of_row(value)
    }
}

impl Entity for Vote {
    type Record = VoteRow;

    open spec fn spec_from_record(record: VoteRow) -> Vote {
        Vote::of_row(record)
    }

    fn from_record(record: VoteRow) -> (e: Vote) {
        Vote::new(record)
    }
}

/// A motion that came after the deadline of its vote.
#[derive(Debug, PartialEq, Eq)]
pub struct VoteError<'a> {
    pub message: String,
    pub vote: &'a Vote,
    pub participant: &'a Participant,
}

/// What is said of a motion that is made at `now` for a vote whose deadline
/// was `deadline`.
pub open spec fn past_deadline_message(now: Timestamp, deadline: Timestamp) -> Seq<char> {
    "Attempted to pass a motion for a vote at "@ + utc_text(now.spec_secs(), now.spec_nanos())
        + " when deadline is "@ + utc_text(deadline.spec_secs(), deadline.spec_nanos())
}

/// Whether `r` is what the recording of `motion` begins with as of the
/// instant `now`. After the deadline of the vote the motion is refused with
/// an error that names the vote and the participant and says both instants;
/// up to the deadline the motion is compiled into its insert.
pub open spec fn recorded_at<'a>(
    motion: MotionAttrs<'a>,
    now: Timestamp,
    r: Result<Request, APIError<'a>>,
) -> bool {
    match r {
        Ok(request) => {
            &&& now.instant() <= motion.vote.spec_deadline().instant()
            &&& request.spec_statement()@
                == motion.injected(InsertView::fresh("motions"@)).rendered()
            &&& request.spec_expect() == Multiplicity::One
        },
        Err(APIError::VoteError(e)) => {
            &&& now.instant() > motion.vote.spec_deadline().instant()
            &&& e.vote == motion.vote
            &&& e.participant == motion.participant
            &&& e.message@ == past_deadline_message(now, motion.vote.spec_deadline())
        },
        Err(APIError::ChangeError(_)) => false,
    }
}

/// Begins the recording of a motion as of the instant `now`. After the
/// deadline of the vote the motion is refused with an error that names the
/// vote and the participant, and nothing is to be run. Otherwise the motion
/// is compiled into its insert.
pub fn make_new_motion_at<'a>(motion: MotionAttrs<'a>, now: Timestamp) -> (r: Result<
    Request,
    APIError<'a>,
>)
    ensures
        recorded_at(motion, now, r),
{
    if motion.vote.is_time_past_deadline(now) {
        let message = String::from_str("Attempted to pass a motion for a vote at ").concat(
            now.to_text().as_str(),
        ).concat(" when deadline is ").concat(motion.vote.deadline().to_text().as_str());
        return Err(
            APIError::VoteError(
                VoteError { message, vote: motion.vote, participant: motion.participant },
            ),
        );
    }
    match crate::repo::insert(motion) {
        Ok(request) => Ok(request),
        Err(e) => Err(APIError::ChangeError(e)),
    }
}

/// Begins the recording of a motion as of now: what [`make_new_motion_at`]
/// does at the instant that the clock gives, which is in range and not before
/// the Unix epoch. So a vote whose deadline lies before the epoch takes no
/// motion, and one whose deadline is the last instant takes every motion.
pub fn make_new_motion<'a>(motion: MotionAttrs<'a>) -> (r: Result<Request, APIError<'a>>)
    ensures
        exists|now: Timestamp|
            {
                &&& now.spec_secs() >= 0
                &&& instant_in_range(now.spec_secs(), now.spec_nanos())
                &&& #[trigger] recorded_at(motion, now, r)
            },
        motion.vote.spec_deadline().instant() < 0 ==> r is Err,
        motion.vote.spec_deadline().instant() >= last_instant() ==> r is Ok,
        match r {
            Ok(request) => {
                &&& request.spec_statement()@
                    == motion.injected(InsertView::fresh("motions"@)).rendered()
                &&& request.spec_expect() == Multiplicity::One
            },
            Err(APIError::VoteError(e)) => e.vote == motion.vote && e.participant
                == motion.participant,
            Err(APIError::ChangeError(_)) => false,
        },
{
    let now = Timestamp::now();
    let r = make_new_motion_at(motion, now);
    assert(recorded_at(motion, now, r));
    r
}

/// Ends the recording of a motion: the stored motion must decode; it is not
/// handed on.
pub fn make_new_motion_reply(fetched: Result<Vec<Row>, BackendError>) -> (r: Result<
    (),
    APIError<'static>,
>)
    ensures
        match r {
            Ok(_) => one_of::<Motion>(fetched_view(fetched)) is Ok,
            Err(APIError::ChangeError(e)) => one_of::<Motion>(fetched_view(fetched)) == Err::<
                crate::entities::motion::MotionView,
                ChangeErrorView,
            >(e@),
            Err(APIError::VoteError(_)) => false,
        },
{
    match crate::repo::insert_reply::<Motion>(fetched) {
        Ok(_) => Ok(()),
        Err(e) => Err(APIError::ChangeError(e)),
    }
}

} // verus!
