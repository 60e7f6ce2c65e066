//! Participants: who may take part in votes.

use crate::attributes::{DBRecord, Insertable, Validatable};
use crate::changeset::TableRef;
use crate::error::{BackendError, BackendErrorView, ChangeError};
use crate::row::{decode_int, decode_text, decode_timestamp, CellView, Row};
use crate::statement::{InsertStatement, InsertView};
use crate::value::{SqlValue, SqlValueView, Timestamp};
use vstd::prelude::*;

verus! {

/// A stored participant.
#[derive(Debug, PartialEq, Eq)]
pub struct Participant {
    pub id: i32,
    pub username: String,
    pub created_at: Timestamp,
    pub updated_at: Timestamp,
}

/// What a [`Participant`] holds.
pub ghost struct ParticipantView {
    pub id: i32,
    pub username: Seq<char>,
    pub created_at: Timestamp,
    pub updated_at: Timestamp,
}

impl View for Participant {
    type V = ParticipantView;

    open spec fn view(&self) -> ParticipantView {
        ParticipantView {
            id: self.id,
            username: self.username@,
            created_at: self.created_at,
            updated_at: self.updated_at,
        }
    }
}

impl TableRef for Participant {
    open spec fn spec_table_ref() -> Seq<char> {
        "participants"@
    }

    fn table_ref() -> (t: &'static str) {
        "participants"
    }
}

impl DBRecord for Participant {
    open spec fn key_of(record: ParticipantView) -> i32 {
        record.id
    }

    /// The columns are read in the order `id`, `username`, `created_at`,
    /// `updated_at`; the first that cannot be read decides the error.
    open spec fn decode(row: Seq<CellView>) -> Result<ParticipantView, BackendErrorView> {
        match decode_int(row, "id"@) {
            Err(e) => Err(e),
            Ok(id) => match decode_text(row, "username"@) {
                Err(e) => Err(e),
                Ok(username) => match decode_timestamp(row, "created_at"@) {
                    Err(e) => Err(e),
                    Ok(created_at) => match decode_timestamp(row, "updated_at"@) {
                        Err(e) => Err(e),
                        Ok(updated_at) => Ok(
                            ParticipantView { id, username, created_at, updated_at },
                        ),
                    },
                },
            },
        }
    }

    fn primary_key(&self) -> (k: i32) {
        self.id
    }

    fn from_row(row: &Row) -> (r: Result<Self, BackendError>) {
        let id = row.get_int("id")?;
        let username = row.get_text("username")?;
        let created_at = row.get_timestamp("created_at")?;
        let updated_at = row.get_timestamp("updated_at")?;
        Ok(Participant { id, username, created_at, updated_at })
    }
}

/// What is needed to store a new participant.
#[derive(Debug, PartialEq, Eq)]
pub struct ParticipantAttrs {
    pub username: String,
}

impl Insertable for ParticipantAttrs {
    type Output = Participant;

    open spec fn injected(&self, starter_query: InsertView) -> InsertView {
        starter_query.value("username"@, SqlValueView::Text(self.username@))
    }

    fn inject_values(self, starter_query: &mut InsertStatement) {
        starter_query.value("username", SqlValue::Text(self.username));
    }
}

impl Validatable for ParticipantAttrs {
    open spec fn rules_apply(&self) -> bool {
        true
    }

    /// A participant has no rules to fail.
    open spec fn failures(&self) -> Seq<Seq<char>> {
        Seq::empty()
    }

    fn validate(&self) -> (r: Result<(), ChangeError>) {
        Ok(())
    }
}

} // verus!
