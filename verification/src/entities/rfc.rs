//! Requests for comments, the subject of votes.

use crate::assocs::{Association, AssociationLoader, HasMany, Multiplicity};
use crate::attributes::{DBRecord, Entity, Insertable, Queryable, Validatable};
use crate::changeset::TableRef;
use crate::entities::vote::{Vote, VoteAttrs};
use crate::error::{BackendError, BackendErrorView, ChangeError, ParseError};
use crate::repo::{fetched_view, load_outcome, Request};
use crate::row::{decode_int, decode_opt_int, decode_text, decode_timestamp, CellView, Row};
use crate::statement::{InsertStatement, InsertView};
use crate::value::{str_eq, SqlValue, SqlValueView, Timestamp};
use vstd::prelude::*;
use vstd::std_specs::convert::{FromSpecImpl, TryFromSpecImpl};

verus! {

/// Where a request for comments stands.
#[derive(Clone, Copy, Debug, PartialEq, Eq, Hash, Structural)]
pub enum Status {
    Active,
    Approved,
    Denied,
    Discarded,
    Obsolete,
}

impl Status {
    /// The name under which the status is stored: the variant in lower case.
    pub open spec fn spec_name(self) -> Seq<char> {
        match self {
            Status::Active => "active"@,
            Status::Approved => "approved"@,
            Status::Denied => "denied"@,
            Status::Discarded => "discarded"@,
            Status::Obsolete => "obsolete"@,
        }
    }

    /// The status that a stored name stands for, if it stands for one. Names
    /// are matched exactly.
    pub open spec fn parse(name: Seq<char>) -> Option<Status> {
        if name == "active"@ {
            Some(Status::Active)
        } else if name == "approved"@ {
            Some(Status::Approved)
        } else if name == "denied"@ {
            Some(Status::Denied)
        } else if name == "discarded"@ {
            Some(Status::Discarded)
        } else if name == "obsolete"@ {
            Some(Status::Obsolete)
        } else {
            None
        }
    }

    /// Every status is read back from its name.
    pub proof fn lemma_name_round_trip(self)
        ensures
            Self::parse(self.spec_name()) == Some(self),
    {
        reveal_strlit("active");
        reveal_strlit("approved");
        reveal_strlit("denied");
        reveal_strlit("discarded");
        reveal_strlit("obsolete");
        assert("active"@.len() == 6 && "approved"@.len() == 8 && "denied"@.len() == 6);
        assert("active"@[0] != "denied"@[0]);
        assert("approved"@[0] != "obsolete"@[0]);
    }

    /// The name under which the status is stored.
    pub fn as_ref(&self) -> (s: &'static str)
        ensures
            s@ == self.spec_name(),
    {
        match self {
            Status::Active => "active",
            Status::Approved => "approved",
            Status::Denied => "denied",
            Status::Discarded => "discarded",
            Status::Obsolete => "obsolete",
        }
    }

    /// Reads a status from its stored name.
    pub fn from_str(value: &str) -> (r: Result<Status, ParseError>)
        ensures
            match r {
                Ok(s) => Self::parse(value@) == Some(s),
                Err(_) => Self::parse(value@) is None,
            },
    {
        if str_eq(value, "active") {
            Ok(Status::Active)
        } else if str_eq(value, "approved") {
            Ok(Status::Approved)
        } else if str_eq(value, "denied") {
            Ok(Status::Denied)
        } else if str_eq(value, "discarded") {
            Ok(Status::Discarded)
        } else if str_eq(value, "obsolete") {
            Ok(Status::Obsolete)
        } else {
            Err(ParseError::VariantNotFound)
        }
    }

}

impl core::str::FromStr for Status {
    type Err = ParseError;

    fn from_str(value: &str) -> (r: Result<Status, ParseError>)
        ensures
            match r {
                Ok(s) => Status::parse(value@) == Some(s),
                Err(_) => Status::parse(value@) is None,
            },
    {
        Status::from_str(value)
    }
}

impl TryFrom<String> for Status {
    type Error = &'static str;

    /// Reads a status from a stored text; an unknown text is refused with a
    /// message.
    fn try_from(value: String) -> (r: Result<Status, &'static str>)
        ensures
            match r {
                Ok(s) => Status::parse(value@) == Some(s),
                Err(m) => Status::parse(value@) is None && m@
                    == "Failed to serialize value to RFC::Status"@,
            },
    {
        match Status::from_str(value.as_str()) {
            Ok(s) => Ok(s),
            Err(_) => Err("Failed to serialize value to RFC::Status"),
        }
    }
}

impl TryFromSpecImpl<String> for Status {
    open spec fn obeys_try_from_spec() -> bool {
        true
    }

    open spec fn try_from_spec(value: String) -> Result<Status, &'static str> {
        match Status::parse(value@) {
            Some(s) => Ok(s),
            None => Err("Failed to serialize value to RFC::Status"),
        }
    }
}

/// A stored request for comments.
#[derive(Debug, PartialEq, Eq)]
pub struct RFCRow {
    pub id: i32,
    pub status: Status,
    pub proposal: String,
    pub topic: String,
    pub supersedes: Option<i32>,
    pub created_at: Timestamp,
    pub updated_at: Timestamp,
}

/// What an [`RFCRow`] holds.
pub ghost struct RFCRowView {
    pub id: i32,
    pub status: Status,
    pub proposal: Seq<char>,
    pub topic: Seq<char>,
    pub supersedes: Option<i32>,
    pub created_at: Timestamp,
    pub updated_at: Timestamp,
}

impl View for RFCRow {
    type V = RFCRowView;

    open spec fn view(&self) -> RFCRowView {
        RFCRowView {
            id: self.id,
            status: self.status,
            proposal: self.proposal@,
            topic: self.topic@,
            supersedes: self.supersedes,
            created_at: self.created_at,
            updated_at: self.updated_at,
        }
    }
}

/// The status in the column `status`: the column must hold the name of a
/// status.
pub open spec fn decode_status(row: Seq<CellView>) -> Result<Status, BackendErrorView> {
    match decode_text(row, "status"@) {
        Err(e) => Err(e),
        Ok(name) => match Status::parse(name) {
            Some(s) => Ok(s),
            None => Err(BackendErrorView::ColumnDecode("status"@)),
        },
    }
}

impl TableRef for RFCRow {
    open spec fn spec_table_ref() -> Seq<char> {
        "request_for_comments"@
    }

    fn table_ref() -> (t: &'static str) {
        "request_for_comments"
    }
}

impl DBRecord for RFCRow {
    open spec fn key_of(record: RFCRowView) -> i32 {
        record.id
    }

    /// The columns are read in the order `id`, `status`, `proposal`, `topic`,
    /// `supersedes`, `created_at`, `updated_at`; the first that cannot be
    /// read decides the error.
    open spec fn decode(row: Seq<CellView>) -> Result<RFCRowView, BackendErrorView> {
        match decode_int(row, "id"@) {
            Err(e) => Err(e),
            Ok(id) => match decode_status(row) {
                Err(e) => Err(e),
                Ok(status) => match decode_text(row, "proposal"@) {
                    Err(e) => Err(e),
                    Ok(proposal) => match decode_text(row, "topic"@) {
                        Err(e) => Err(e),
                        Ok(topic) => match decode_opt_int(row, "supersedes"@) {
                            Err(e) => Err(e),
                            Ok(supersedes) => match decode_timestamp(row, "created_at"@) {
                                Err(e) => Err(e),
                                Ok(created_at) => match decode_timestamp(row, "updated_at"@) {
                                    Err(e) => Err(e),
                                    Ok(updated_at) => Ok(
                                        RFCRowView {
                                            id,
                                            status,
                                            proposal,
                                            topic,
                                            supersedes,
                                            created_at,
                                            updated_at,
                                        },
                                    ),
                                },
                            },
                        },
                    },
                },
            },
        }
    }

    fn primary_key(&self) -> (k: i32) {
        self.id
    }

    fn from_row(row: &Row) -> (r: Result<Self, BackendError>) {
        let id = row.get_int("id")?;
        let status = match Status::try_from(row.get_text("status")?) {
            Ok(s) => s,
            Err(_) => {
                return Err(BackendError::ColumnDecode("status".to_owned()));
            },
        };
        let proposal = row.get_text("proposal")?;
        let topic = row.get_text("topic")?;
        let supersedes = row.get_opt_int("supersedes")?;
        let created_at = row.get_timestamp("created_at")?;
        let updated_at = row.get_timestamp("updated_at")?;
        Ok(RFCRow { id, status, proposal, topic, supersedes, created_at, updated_at })
    }
}

/// What is needed to store a new request for comments.
#[derive(Clone, Copy, Debug)]
pub struct RFCAttrs<'a> {
    proposal: &'a str,
    topic: &'a str,
}

impl<'a> RFCAttrs<'a> {
    pub closed spec fn spec_proposal(&self) -> Seq<char> {
        self.proposal@
    }

    pub closed spec fn spec_topic(&self) -> Seq<char> {
        self.topic@
    }

    pub fn new(topic: &'a str, proposal: &'a str) -> (r: Self)
        ensures
            r.spec_topic() == topic@,
            r.spec_proposal() == proposal@,
    {
        RFCAttrs { topic, proposal }
    }
}

impl<'a> Insertable for RFCAttrs<'a> {
    type Output = RFCRow;

    open spec fn injected(&self, starter_query: InsertView) -> InsertView {
        starter_query
            .value("proposal"@, SqlValueView::Text(self.spec_proposal()))
            .value("topic"@, SqlValueView::Text(self.spec_topic()))
    }

    fn inject_values(self, starter_query: &mut InsertStatement) {
        starter_query.value("proposal", SqlValue::Text(self.proposal.to_owned()));
        starter_query.value("topic", SqlValue::Text(self.topic.to_owned()));
    }
}

impl<'a> Validatable for RFCAttrs<'a> {
    open spec fn rules_apply(&self) -> bool {
        true
    }

    /// A request for comments has no rules to fail.
    open spec fn failures(&self) -> Seq<Seq<char>> {
        Seq::empty()
    }

    fn validate(&self) -> (r: Result<(), ChangeError>) {
        Ok(())
    }
}

/// A request for comments with its votes, which are loaded on demand.
#[derive(Debug, PartialEq, Eq)]
pub struct RFC {
    id: i32,
    status: Status,
    proposal: String,
    topic: String,
    supersedes: Option<i32>,
    created_at: Timestamp,
    updated_at: Timestamp,
    votes: HasMany<Vote, VoteAttrs>,
}

impl RFC {
    pub closed spec fn spec_id(&self) -> i32 {
        self.id
    }

    pub closed spec fn spec_status(&self) -> Status {
        self.status
    }

    pub closed spec fn spec_proposal(&self) -> Seq<char> {
        self.proposal@
    }

    pub closed spec fn spec_topic(&self) -> Seq<char> {
        self.topic@
    }

    pub closed spec fn spec_supersedes(&self) -> Option<i32> {
        self.supersedes
    }

    pub closed spec fn spec_created_at(&self) -> Timestamp {
        self.created_at
    }

    pub closed spec fn spec_updated_at(&self) -> Timestamp {
        self.updated_at
    }

    /// The association to the votes on this request.
    pub closed spec fn spec_votes(&self) -> HasMany<Vote, VoteAttrs> {
        self.votes
    }

    pub fn id(&self) -> (r: &i32)
        ensures
            *r == self.spec_id(),
    {
        &self.id
    }

    pub fn status(&self) -> (r: &Status)
        ensures
            *r == self.spec_status(),
    {
        &self.status
    }

    pub fn proposal(&self) -> (r: &String)
        ensures
            r@ == self.spec_proposal(),
    {
        &self.proposal
    }

    pub fn topic(&self) -> (r: &String)
        ensures
            r@ == self.spec_topic(),
    {
        &self.topic
    }

    pub fn supersedes(&self) -> (r: &Option<i32>)
        ensures
            *r == self.spec_supersedes(),
    {
        &self.supersedes
    }

    pub fn created_at(&self) -> (r: &Timestamp)
        ensures
            *r == self.spec_created_at(),
    {
        &self.created_at
    }

    pub fn updated_at(&self) -> (r: &Timestamp)
        ensures
            *r == self.spec_updated_at(),
    {
        &self.updated_at
    }

    /// The request that a stored request yields: the same values, and the
    /// votes on it not loaded yet.
    pub closed spec fn of_row(value: RFCRow) -> RFC {
        RFC {
            id: value.id,
            status: value.status,
            proposal: value.proposal,
            topic: value.topic,
            supersedes: value.supersedes,
            created_at: value.created_at,
            updated_at: value.updated_at,
            votes: HasMany::unloaded(VoteAttrs { rfc_id: value.id, deadline: None }),
        }
    }

    /// Makes the request that a stored request yields.
    pub fn new(value: RFCRow) -> (r: RFC)
        ensures
            r == Self::of_row(value),
    {
        RFC {
            id: value.id,
            status: value.status,
            proposal: value.proposal,
            topic: value.topic,
            supersedes: value.supersedes,
            created_at: value.created_at,
            updated_at: value.updated_at,
            votes: HasMany::new(VoteAttrs { rfc_id: value.id, deadline: None }),
        }
    }

    /// A request made from a stored request has its values; its votes are
    /// not loaded and will be read by the id of the request.
    pub proof fn lemma_of_row(value: RFCRow)
        ensures
            Self::of_row(value).spec_id() == value.id,
            Self::of_row(value).spec_status() == value.status,
            Self::of_row(value).spec_proposal() == value.proposal@,
            Self::of_row(value).spec_topic() == value.topic@,
            Self::of_row(value).spec_supersedes() == value.supersedes,
            Self::of_row(value).spec_created_at() == value.created_at,
            Self::of_row(value).spec_updated_at() == value.updated_at,
            Self::of_row(value).spec_votes().loadable() is NotLoaded,
            Self::of_row(value).spec_votes().spec_query() == (VoteAttrs {
                rfc_id: value.id,
                deadline: None,
            }),
    {
        HasMany::<Vote, VoteAttrs>::lemma_unloaded(VoteAttrs { rfc_id: value.id, deadline: None });
    }

    /// Begins the reading of the votes on this request: the read to run, or
    /// nothing if the votes are loaded.
    pub fn votes_request(&self) -> (r: Option<Request>)
        ensures
            match r {
                None => self.spec_votes().loadable() is Loaded,
                Some(request) => {
                    &&& self.spec_votes().loadable() is NotLoaded
                    &&& request.spec_statement()@
                        == self.spec_votes().spec_query().selection().rendered()
                    &&& request.spec_expect() == Multiplicity::Many
                },
            },
    {
        crate::repo::load(&self.votes)
    }

    /// Ends the reading of the votes on this request: stores the votes that
    /// came back, unless votes are stored already. Everything else about the
    /// request stays as it is.
    pub fn votes_reply(&mut self, fetched: Result<Vec<Row>, BackendError>) -> (r: Result<
        (),
        ChangeError,
    >)
        ensures
            final(self).spec_id() == old(self).spec_id(),
            final(self).spec_status() == old(self).spec_status(),
            final(self).spec_proposal() == old(self).spec_proposal(),
            final(self).spec_topic() == old(self).spec_topic(),
            final(self).spec_supersedes() == old(self).spec_supersedes(),
            final(self).spec_created_at() == old(self).spec_created_at(),
            final(self).spec_updated_at() == old(self).spec_updated_at(),
            final(self).spec_votes().spec_query() == old(self).spec_votes().spec_query(),
            old(self).spec_votes().loadable() is Loaded ==> r is Ok
                && final(self).spec_votes().loadable() == old(self).spec_votes().loadable(),
            old(self).spec_votes().loadable() is NotLoaded ==> load_outcome::<Vote>(
                Multiplicity::Many,
                fetched_view(fetched),
                r,
                final(self).spec_votes().loadable(),
            ),
    {
        crate::repo::load_reply(&mut self.votes, fetched)
    }

    /// The votes on this request in the order in which they were read, or
    /// `None` as long as they are not loaded.
    pub fn votes(&self) -> (r: Option<&[Vote]>)
        ensures
            match r {
                None => self.spec_votes().loadable() is NotLoaded,
                Some(votes) => self.spec_votes().loadable() is Loaded && votes@
                    == self.spec_votes().records(),
            },
    {
        if self.votes.is_loaded() {
            Some(self.votes.unwrap())
        } else {
            None
        }
    }
}

impl From<RFCRow> for RFC {
    fn from(value: RFCRow) -> (r: RFC) {
        RFC::new(value)
    }
}

impl FromSpecImpl<RFCRow> for RFC {
    open spec fn obeys_from_spec() -> bool {
        true
    }

    open spec fn from_spec(value: RFCRow) -> RFC {
        RFC::of_row(value)
    }
}

impl Entity for RFC {
    type Record = RFCRow;

    open spec fn spec_from_record(record: RFCRow) -> RFC {
        RFC::of_row(record)
    }

    fn from_record(record: RFCRow) -> (e: RFC) {
        RFC::new(record)
    }
}

} // verus!
