use rfcb::api_error::APIError;
use rfcb::assocs::Multiplicity;
use rfcb::attributes::{DBRecord, Insertable, Queryable, Validatable};
use rfcb::changeset::{Iden, TableRef, Valuable};
use rfcb::entities::motion::{
    Motion, MotionAssocQuery, MotionAttrs, MotionIden, MotionQuery, Type,
};
use rfcb::entities::participants::{Participant, ParticipantAttrs};
use rfcb::entities::rfc::{RFCAttrs, RFCRow, Status, RFC};
use rfcb::entities::vote::{
    make_new_motion, make_new_motion_at, make_new_motion_reply, Days, Vote, VoteAttrs, VoteRow,
};
use rfcb::error::{BackendError, ChangeError, ParseError};
use rfcb::row::{Cell, Row};
use rfcb::value::{SqlType, SqlValue, Timestamp, MAX_SECS};

fn at(secs: i64) -> Timestamp {
    Timestamp::new(secs, 0).unwrap()
}

fn cell(name: &str, value: SqlValue) -> Cell {
    Cell { name: name.to_string(), value }
}

fn text(s: &str) -> SqlValue {
    SqlValue::Text(s.to_string())
}

fn date_naive(t: Timestamp) -> chrono::NaiveDate {
    chrono::DateTime::from_timestamp(t.secs(), t.nanos()).unwrap().date_naive()
}

fn participant() -> Participant {
    let now = Timestamp::now();
    Participant { id: -1, username: "austin".to_string(), created_at: now, updated_at: now }
}

fn vote_with_deadline(deadline: Timestamp) -> Vote {
    let now = Timestamp::now();
    Vote::from(VoteRow { id: -1, rfc_id: -1, deadline, created_at: now, updated_at: now })
}

fn motion_row() -> Row {
    Row {
        cells: vec![
            cell("id", SqlValue::Int(9)),
            cell("vote_id", SqlValue::Int(4)),
            cell("participant_id", SqlValue::Int(2)),
            cell("type", text("reject")),
            cell("comment", SqlValue::Null(SqlType::Text)),
            cell("created_at", SqlValue::Timestamp(at(100))),
            cell("updated_at", SqlValue::Timestamp(at(200))),
        ],
    }
}

#[test]
fn vote_add_defaults_adds_deadline_when_not_supplied() {
    let mut attrs = VoteAttrs { rfc_id: -1, deadline: None };
    attrs.add_defaults(Days::new(7));

    let seven_days_from_now =
        chrono::Utc::now().checked_add_days(chrono::Days::new(7)).unwrap().date_naive();
    assert_eq!(seven_days_from_now, date_naive(attrs.deadline.unwrap()))
}

#[test]
fn vote_does_not_add_default_deadline_when_its_supplied() {
    let supplied = chrono::Utc::now().checked_add_days(chrono::Days::new(3)).unwrap();
    let mut attrs = VoteAttrs {
        rfc_id: -1,
        deadline: Timestamp::new(supplied.timestamp(), supplied.timestamp_subsec_nanos()),
    };
    attrs.add_defaults(Days::new(7));

    let seven_days_from_now =
        chrono::Utc::now().checked_add_days(chrono::Days::new(7)).unwrap().date_naive();

    assert_eq!(seven_days_from_now, date_naive(attrs.deadline.unwrap()) + chrono::Days::new(4))
}

#[test]
fn entity_add_defaults_adds_deadline_when_not_supplied() {
    let mut attrs = VoteAttrs { rfc_id: -1, deadline: None };
    assert!(attrs.add_defaults(Days::new(7)));

    let seven_days_from_now =
        chrono::Utc::now().checked_add_days(chrono::Days::new(7)).unwrap().date_naive();
    assert_eq!(seven_days_from_now, date_naive(attrs.deadline.unwrap()));
    assert_eq!(attrs.rfc_id, -1);
}

#[test]
fn entity_does_not_add_default_deadline_when_its_supplied() {
    let supplied = chrono::Utc::now().checked_add_days(chrono::Days::new(3)).unwrap();
    let deadline = Timestamp::new(supplied.timestamp(), supplied.timestamp_subsec_nanos());
    let mut attrs = VoteAttrs { rfc_id: -1, deadline };
    assert!(attrs.add_defaults(Days::new(7)));

    let seven_days_from_now =
        chrono::Utc::now().checked_add_days(chrono::Days::new(7)).unwrap().date_naive();

    assert_eq!(seven_days_from_now, date_naive(attrs.deadline.unwrap()) + chrono::Days::new(4));
    assert_eq!(attrs.deadline, deadline);
}

#[test]
fn add_defaults_at_is_exact() {
    let now = Timestamp::new(1_675_432_314, 500).unwrap();
    let mut attrs = VoteAttrs { rfc_id: 3, deadline: None };
    assert!(attrs.add_defaults_at(now, Days::new(7)));
    assert_eq!(attrs.deadline, Timestamp::new(1_675_432_314 + 604_800, 500));
    assert_eq!(attrs.rfc_id, 3);

    let supplied = at(5);
    let mut attrs = VoteAttrs { rfc_id: 3, deadline: Some(supplied) };
    assert!(attrs.add_defaults_at(now, Days::new(7)));
    assert_eq!(attrs.deadline, Some(supplied));
}

#[test]
fn add_defaults_at_refuses_what_cannot_be_held() {
    let now = at(0);
    let mut attrs = VoteAttrs { rfc_id: 3, deadline: None };
    assert!(!attrs.add_defaults_at(now, Days::new(u64::MAX)));
    assert_eq!(attrs, VoteAttrs { rfc_id: 3, deadline: None });
    let mut attrs = VoteAttrs { rfc_id: 3, deadline: Some(now) };
    assert!(!attrs.add_defaults_at(now, Days::new(100_000_000_000)));
    assert_eq!(attrs, VoteAttrs { rfc_id: 3, deadline: Some(now) });
}

#[test]
fn entity_returns_error_if_current_date_after_deadline() {
    let now = Timestamp::new(1_675_432_314, 123_456_000).unwrap();
    let one_day_ago = at(1_675_432_314 - 86_400);
    let vote = vote_with_deadline(one_day_ago);
    let participant = participant();
    let motion_attrs =
        MotionAttrs { vote: &vote, participant: &participant, type_: Type::Accept, comment: None };
    if let APIError::VoteError(result) = make_new_motion_at(motion_attrs, now).unwrap_err() {
        assert_eq!(participant.id, result.participant.id);
        assert_eq!(vote.id(), result.vote.id());
        assert_eq!(
            result.message,
            "Attempted to pass a motion for a vote at 2023-02-03 13:51:54.123456 UTC when deadline is 2023-02-02 13:51:54 UTC"
        );
    } else {
        panic!()
    }
}

#[test]
fn vote_returns_error_if_current_date_after_deadline() {
    let now = chrono::Utc::now();
    let one_day_ago = at(now.timestamp() - 86_400);
    let vote = vote_with_deadline(one_day_ago);
    let participant = participant();
    let motion_attrs =
        MotionAttrs { vote: &vote, participant: &participant, type_: Type::Accept, comment: None };
    if let APIError::VoteError(result) = make_new_motion(motion_attrs).unwrap_err() {
        assert_eq!(participant.id, result.participant.id);
        assert_eq!(vote.id(), result.vote.id());
        assert!(result.message.starts_with("Attempted to pass a motion for a vote at "));
        assert!(result.message.contains(" when deadline is "));
        assert!(result.message.ends_with(" UTC"));
    } else {
        panic!()
    }
}

#[test]
fn vote_returns_ok_if_current_date_befor_deadline() {
    let now = chrono::Utc::now();
    let one_day_from_now = at(now.timestamp() + 86_400);
    let vote = Vote::from(VoteRow {
        id: 12,
        rfc_id: 1,
        deadline: one_day_from_now,
        created_at: at(0),
        updated_at: at(0),
    });
    let participant = Participant {
        id: 7,
        username: "austin".to_string(),
        created_at: at(0),
        updated_at: at(0),
    };
    let motion_attrs =
        MotionAttrs { vote: &vote, participant: &participant, type_: Type::Accept, comment: None };
    let request = make_new_motion(motion_attrs).unwrap();
    assert_eq!(request.expect(), Multiplicity::One);
    assert_eq!(
        request.statement().sql,
        "INSERT INTO \"motions\" (\"vote_id\", \"participant_id\", \"type\", \"comment\") VALUES ($1, $2, $3, $4) ON CONFLICT (\"vote_id\", \"participant_id\") DO UPDATE SET \"type\" = \"excluded\".\"type\", \"comment\" = \"excluded\".\"comment\", \"updated_at\" = \"excluded\".\"updated_at\" RETURNING *"
    );
    assert_eq!(
        request.statement().params,
        vec![SqlValue::Int(12), SqlValue::Int(7), text("accept"), SqlValue::Null(SqlType::Text)]
    );

    let query = MotionQuery { vote: Some(&vote), participant: Some(&participant), type_: None };
    let read = rfcb::repo::one(&query);
    assert_eq!(
        read.statement().sql,
        "SELECT * FROM \"motions\" WHERE \"vote_id\" = $1 AND \"participant_id\" = $2"
    );
    assert_eq!(read.statement().params, vec![SqlValue::Int(12), SqlValue::Int(7)]);
}

#[test]
fn a_motion_at_the_deadline_is_still_taken() {
    let deadline = Timestamp::new(1_000, 5).unwrap();
    let vote = vote_with_deadline(deadline);
    let participant = participant();
    let attrs =
        MotionAttrs { vote: &vote, participant: &participant, type_: Type::Reject, comment: None };
    assert!(make_new_motion_at(attrs, deadline).is_ok());
    assert!(make_new_motion_at(attrs, Timestamp::new(1_000, 6).unwrap()).is_err());
    assert!(make_new_motion_at(attrs, Timestamp::new(999, 999_999_999).unwrap()).is_ok());
    assert!(!vote.is_time_past_deadline(deadline));
    assert!(vote.is_time_past_deadline(Timestamp::new(1_001, 0).unwrap()));
}

#[test]
fn upserts_for_duplicate_motions() {
    let vote = vote_with_deadline(at(10));
    let participant = participant();
    let first =
        MotionAttrs { vote: &vote, participant: &participant, type_: Type::Accept, comment: None };
    let mut second = first;
    second.type_ = Type::Reject;
    second.comment = Some("Why hello there");
    let a = first.prepare_query();
    let b = second.prepare_query();
    assert_eq!(a.sql, b.sql);
    assert!(a.sql.contains("ON CONFLICT (\"vote_id\", \"participant_id\") DO UPDATE SET"));
    assert_eq!(
        b.params,
        vec![SqlValue::Int(-1), SqlValue::Int(-1), text("reject"), text("Why hello there")]
    );
    assert_eq!(first.validate(), Ok(()));
}

#[test]
fn make_new_motion_reply_needs_a_stored_motion() {
    assert!(make_new_motion_reply(Ok(vec![motion_row()])).is_ok());
    match make_new_motion_reply(Ok(vec![])) {
        Err(APIError::ChangeError(e)) => {
            assert_eq!(e, ChangeError::DBError(BackendError::RowNotFound))
        },
        _ => panic!(),
    }
    match make_new_motion_reply(Err(BackendError::Database("duplicate key".to_string()))) {
        Err(APIError::ChangeError(e)) => assert_eq!(
            e,
            ChangeError::DBError(BackendError::Database("duplicate key".to_string()))
        ),
        _ => panic!(),
    }
}

#[test]
fn motion_query_omits_what_is_not_supplied() {
    let vote = vote_with_deadline(at(10));
    let participant = participant();
    let all = MotionQuery { vote: None, participant: None, type_: None };
    assert_eq!(all.to_sql().sql, "SELECT * FROM \"motions\"");
    assert!(all.to_sql().params.is_empty());

    let by_type = MotionQuery { vote: None, participant: None, type_: Some(Type::Reject) };
    assert_eq!(by_type.to_sql().sql, "SELECT * FROM \"motions\" WHERE \"type\" = $1");
    assert_eq!(by_type.to_sql().params, vec![text("reject")]);

    let full =
        MotionQuery { vote: Some(&vote), participant: Some(&participant), type_: Some(Type::Accept) };
    assert_eq!(
        full.to_sql().sql,
        "SELECT * FROM \"motions\" WHERE \"vote_id\" = $1 AND \"participant_id\" = $2 AND \"type\" = $3"
    );
    assert_eq!(
        full.to_sql().params,
        vec![SqlValue::Int(-1), SqlValue::Int(-1), text("accept")]
    );

    let by_participant = MotionQuery { vote: None, participant: Some(&participant), type_: None };
    assert_eq!(
        by_participant.to_sql().sql,
        "SELECT * FROM \"motions\" WHERE \"participant_id\" = $1"
    );
}

#[test]
fn association_queries_filter_by_owner() {
    let q = MotionAssocQuery { vote_id: 5 }.to_sql();
    assert_eq!(q.sql, "SELECT * FROM \"motions\" WHERE \"vote_id\" = $1");
    assert_eq!(q.params, vec![SqlValue::Int(5)]);
    let q = VoteAttrs { rfc_id: 8, deadline: Some(at(1)) }.to_sql();
    assert_eq!(q.sql, "SELECT * FROM \"votes\" WHERE \"rfc_id\" = $1");
    assert_eq!(q.params, vec![SqlValue::Int(8)]);
}

#[test]
fn attrs_render_their_inserts() {
    let p = ParticipantAttrs { username: "Austin".to_string() };
    assert_eq!(p.validate(), Ok(()));
    let s = p.prepare_query();
    assert_eq!(s.sql, "INSERT INTO \"participants\" (\"username\") VALUES ($1) RETURNING *");
    assert_eq!(s.params, vec![text("Austin")]);

    let r = RFCAttrs::new("the topic", "Who goes there");
    assert_eq!(r.validate(), Ok(()));
    let s = r.prepare_query();
    assert_eq!(
        s.sql,
        "INSERT INTO \"request_for_comments\" (\"proposal\", \"topic\") VALUES ($1, $2) RETURNING *"
    );
    assert_eq!(s.params, vec![text("Who goes there"), text("the topic")]);

    let v = VoteAttrs { rfc_id: 4, deadline: None };
    assert_eq!(v.validate(), Ok(()));
    let s = v.prepare_query();
    assert_eq!(s.sql, "INSERT INTO \"votes\" (\"rfc_id\", \"deadline\") VALUES ($1, $2) RETURNING *");
    assert_eq!(s.params, vec![SqlValue::Int(4), SqlValue::Null(SqlType::Timestamp)]);
    let s = VoteAttrs { rfc_id: 4, deadline: Some(at(77)) }.prepare_query();
    assert_eq!(s.params, vec![SqlValue::Int(4), SqlValue::Timestamp(at(77))]);
}

#[test]
fn names_of_stands_and_statuses() {
    assert_eq!(Type::Accept.as_ref(), "accept");
    assert_eq!(Type::Reject.as_ref(), "reject");
    assert_eq!(Type::from_str("accept"), Ok(Type::Accept));
    assert_eq!(Type::from_str("reject"), Ok(Type::Reject));
    assert_eq!(Type::from_str("Accept"), Err(ParseError::VariantNotFound));
    assert_eq!(Type::from_str(""), Err(ParseError::VariantNotFound));
    assert_eq!(Type::try_from("reject".to_string()), Ok(Type::Reject));
    assert_eq!(
        Type::try_from("maybe".to_string()),
        Err("Failed to serialize value to Motion::Type")
    );
    assert_eq!("accept".parse::<Type>(), Ok(Type::Accept));
    assert_eq!("rejected".parse::<Type>(), Err(ParseError::VariantNotFound));
    let converted: Result<Type, &'static str> = "reject".to_string().try_into();
    assert_eq!(converted, Ok(Type::Reject));
    assert_eq!("obsolete".parse::<Status>(), Ok(Status::Obsolete));
    assert_eq!("".parse::<Status>(), Err(ParseError::VariantNotFound));
    assert_eq!(Type::Reject.value(), text("reject"));
    assert_eq!(Type::Accept.to_value(), text("accept"));

    let all = [
        (Status::Active, "active"),
        (Status::Approved, "approved"),
        (Status::Denied, "denied"),
        (Status::Discarded, "discarded"),
        (Status::Obsolete, "obsolete"),
    ];
    for (status, name) in all {
        assert_eq!(status.as_ref(), name);
        assert_eq!(Status::from_str(name), Ok(status));
        assert_eq!(Status::try_from(name.to_string()), Ok(status));
    }
    assert_eq!(Status::from_str("ACTIVE"), Err(ParseError::VariantNotFound));
    assert_eq!(
        Status::try_from("open".to_string()),
        Err("Failed to serialize value to RFC::Status")
    );
}

#[test]
fn motion_columns_have_their_names() {
    let all = [
        (MotionIden::Id, "id"),
        (MotionIden::VoteId, "vote_id"),
        (MotionIden::ParticipantId, "participant_id"),
        (MotionIden::Type, "type"),
        (MotionIden::Comment, "comment"),
        (MotionIden::CreatedAt, "created_at"),
        (MotionIden::UpdatedAt, "updated_at"),
    ];
    for (column, name) in all {
        assert_eq!(column.unquoted(), name);
        assert_eq!(column.name(), name);
    }
}

#[test]
fn tables_and_keys() {
    assert_eq!(Motion::table_ref(), "motions");
    assert_eq!(Participant::table_ref(), "participants");
    assert_eq!(VoteRow::table_ref(), "votes");
    assert_eq!(RFCRow::table_ref(), "request_for_comments");
    assert_eq!(Motion::from_row(&motion_row()).unwrap().primary_key(), 9);
    assert_eq!(participant().primary_key(), -1);
}

#[test]
fn decodes_a_motion() {
    let motion = Motion::from_row(&motion_row()).unwrap();
    assert_eq!(
        motion,
        Motion {
            id: 9,
            vote_id: 4,
            participant_id: 2,
            type_: Type::Reject,
            comment: None,
            created_at: at(100),
            updated_at: at(200),
        }
    );
    let mut row = motion_row();
    row.cells[4] = cell("comment", text("Hello"));
    assert_eq!(Motion::from_row(&row).unwrap().comment, Some("Hello".to_string()));
}

#[test]
fn decoding_reports_the_first_column_that_fails() {
    let mut row = motion_row();
    row.cells[3] = cell("type", text("abstain"));
    row.cells[6] = cell("updated_at", SqlValue::Int(1));
    assert_eq!(Motion::from_row(&row), Err(BackendError::ColumnDecode("type".to_string())));

    let mut row = motion_row();
    row.cells.remove(1);
    assert_eq!(Motion::from_row(&row), Err(BackendError::ColumnNotFound("vote_id".to_string())));

    let mut row = motion_row();
    row.cells[0] = cell("id", SqlValue::Null(SqlType::Int));
    assert_eq!(Motion::from_row(&row), Err(BackendError::ColumnDecode("id".to_string())));

    let mut row = motion_row();
    row.cells[4] = cell("comment", SqlValue::Int(3));
    assert_eq!(Motion::from_row(&row), Err(BackendError::ColumnDecode("comment".to_string())));

    assert_eq!(
        Motion::from_row(&Row { cells: vec![] }),
        Err(BackendError::ColumnNotFound("id".to_string()))
    );
}

#[test]
fn the_last_of_equally_named_columns_is_read() {
    let mut row = motion_row();
    row.cells.push(cell("id", SqlValue::Int(10)));
    assert_eq!(Motion::from_row(&row).unwrap().id, 10);
    assert_eq!(row.get("id"), Some(&SqlValue::Int(10)));
    assert_eq!(row.get("nothing"), None);
    assert_eq!(row.get_int("vote_id"), Ok(4));
    assert_eq!(row.get_opt_int("vote_id"), Ok(Some(4)));
    assert_eq!(row.get_opt_int("comment"), Ok(None));
    assert_eq!(row.get_opt_int("type"), Err(BackendError::ColumnDecode("type".to_string())));
    assert_eq!(row.get_text("type"), Ok("reject".to_string()));
    assert_eq!(row.get_text("comment"), Err(BackendError::ColumnDecode("comment".to_string())));
    assert_eq!(row.get_opt_text("comment"), Ok(None));
    assert_eq!(row.get_opt_text("type"), Ok(Some("reject".to_string())));
    assert_eq!(row.get_timestamp("created_at"), Ok(at(100)));
    assert_eq!(
        row.get_timestamp("id"),
        Err(BackendError::ColumnDecode("id".to_string()))
    );
    assert_eq!(
        row.get_timestamp("deadline"),
        Err(BackendError::ColumnNotFound("deadline".to_string()))
    );
}

#[test]
fn decodes_participants_votes_and_requests() {
    let row = Row {
        cells: vec![
            cell("id", SqlValue::Int(1)),
            cell("username", text("Austin")),
            cell("created_at", SqlValue::Timestamp(at(1))),
            cell("updated_at", SqlValue::Timestamp(at(2))),
        ],
    };
    let p = Participant::from_row(&row).unwrap();
    assert_eq!("Austin", p.username);
    assert_eq!((p.id, p.created_at, p.updated_at), (1, at(1), at(2)));

    let row = Row {
        cells: vec![
            cell("id", SqlValue::Int(3)),
            cell("rfc_id", SqlValue::Int(2)),
            cell("deadline", SqlValue::Timestamp(at(50))),
            cell("created_at", SqlValue::Timestamp(at(1))),
            cell("updated_at", SqlValue::Timestamp(at(2))),
        ],
    };
    let v = VoteRow::from_row(&row).unwrap();
    assert_eq!(
        v,
        VoteRow { id: 3, rfc_id: 2, deadline: at(50), created_at: at(1), updated_at: at(2) }
    );
    let vote: Vote = v.into();
    assert_eq!(
        (*vote.id(), *vote.rfc_id(), *vote.deadline(), *vote.created_at(), *vote.updated_at()),
        (3, 2, at(50), at(1), at(2))
    );

    let row = Row {
        cells: vec![
            cell("id", SqlValue::Int(6)),
            cell("status", text("active")),
            cell("proposal", text("Who goes there")),
            cell("topic", text("the topic")),
            cell("supersedes", SqlValue::Null(SqlType::Int)),
            cell("created_at", SqlValue::Timestamp(at(1))),
            cell("updated_at", SqlValue::Timestamp(at(2))),
        ],
    };
    let r = RFCRow::from_row(&row).unwrap();
    assert!(r.id > 0);
    assert!(r.status == Status::Active);
    assert!(r.proposal == "Who goes there");
    assert!(r.topic == "the topic");
    assert_eq!(r.supersedes, None);
    let rfc: RFC = r.into();
    assert_eq!(*rfc.id(), 6);
    assert_eq!(*rfc.status(), Status::Active);
    assert_eq!(rfc.proposal(), "Who goes there");
    assert_eq!(rfc.topic(), "the topic");
    assert_eq!(*rfc.supersedes(), None);
    assert_eq!((*rfc.created_at(), *rfc.updated_at()), (at(1), at(2)));
    assert!(rfc.votes().is_none());
}

#[test]
fn an_unknown_status_is_a_decoding_error() {
    let row = Row {
        cells: vec![
            cell("id", SqlValue::Int(6)),
            cell("status", text("pending")),
            cell("proposal", text("p")),
            cell("topic", text("t")),
            cell("supersedes", SqlValue::Int(5)),
            cell("created_at", SqlValue::Timestamp(at(1))),
            cell("updated_at", SqlValue::Timestamp(at(2))),
        ],
    };
    assert_eq!(RFCRow::from_row(&row), Err(BackendError::ColumnDecode("status".to_string())));
}

#[test]
fn entity_returns_ok_if_current_date_befor_deadline() {
    let now = Timestamp::new(1_675_432_314, 0).unwrap();
    let one_day_from_now = now.checked_add_days(1).unwrap();
    let vote = vote_with_deadline(one_day_from_now);
    let participant = participant();
    let motion_attrs =
        MotionAttrs { vote: &vote, participant: &participant, type_: Type::Accept, comment: None };
    let request = make_new_motion_at(motion_attrs, now).unwrap();
    assert_eq!(request.statement().params.len(), 4);

    let mut stored = motion_row();
    stored.cells[1] = cell("vote_id", SqlValue::Int(*vote.id()));
    stored.cells[2] = cell("participant_id", SqlValue::Int(participant.id));
    assert!(make_new_motion_reply(Ok(vec![stored])).is_ok());

    let mut stored = motion_row();
    stored.cells[1] = cell("vote_id", SqlValue::Int(*vote.id()));
    stored.cells[2] = cell("participant_id", SqlValue::Int(participant.id));
    let created_motion: Motion = rfcb::repo::one_reply(Ok(vec![stored])).unwrap();
    assert_eq!(created_motion.participant_id, participant.id);
    assert_eq!(created_motion.vote_id, *vote.id());
}

#[test]
fn motion_returns_struct_when_valid() {
    let vote = Vote::from(VoteRow {
        id: 4,
        rfc_id: 1,
        deadline: at(10),
        created_at: at(0),
        updated_at: at(0),
    });
    let participant =
        Participant { id: 2, username: "austin".to_string(), created_at: at(0), updated_at: at(0) };
    let attrs = MotionAttrs {
        vote: &vote,
        participant: &participant,
        type_: Type::Accept,
        comment: Some("Hello"),
    };
    let request = rfcb::repo::insert(attrs).unwrap();
    assert_eq!(
        request.statement().params,
        vec![SqlValue::Int(4), SqlValue::Int(2), text("accept"), text("Hello")]
    );
    let mut stored = motion_row();
    stored.cells[3] = cell("type", text("accept"));
    stored.cells[4] = cell("comment", text("Hello"));
    let result: Motion = rfcb::repo::insert_reply(Ok(vec![stored])).unwrap();
    assert_eq!(result.participant_id, participant.id);
    assert_eq!(result.vote_id, *vote.id());
    assert_eq!(result.comment, Some("Hello".to_string()));
    assert_eq!(result.type_, Type::Accept);
}

#[test]
fn rfc_returns_struct_when_valid() {
    let attrs = RFCAttrs::new("the topic", "Who goes there");
    let request = rfcb::repo::insert(attrs).unwrap();
    assert_eq!(request.statement().params, vec![text("Who goes there"), text("the topic")]);
    let stored = Row {
        cells: vec![
            cell("id", SqlValue::Int(1)),
            cell("status", text("active")),
            cell("proposal", text("Who goes there")),
            cell("topic", text("the topic")),
            cell("supersedes", SqlValue::Null(SqlType::Int)),
            cell("created_at", SqlValue::Timestamp(at(1))),
            cell("updated_at", SqlValue::Timestamp(at(1))),
        ],
    };
    let rfc: RFC = rfcb::repo::insert_reply::<RFCRow>(Ok(vec![stored])).unwrap().into();
    assert!(*rfc.id() > 0);
    assert!(*rfc.status() == Status::Active);
    assert!(rfc.proposal() == "Who goes there");
    assert!(rfc.topic() == "the topic");
}

#[test]
fn works() {
    let request =
        rfcb::repo::insert(ParticipantAttrs { username: "Austin".to_string() }).unwrap();
    assert_eq!(request.statement().params, vec![text("Austin")]);
    let stored = Row {
        cells: vec![
            cell("id", SqlValue::Int(1)),
            cell("username", text("Austin")),
            cell("created_at", SqlValue::Timestamp(at(1))),
            cell("updated_at", SqlValue::Timestamp(at(1))),
        ],
    };
    let participant: Participant = rfcb::repo::insert_reply(Ok(vec![stored])).unwrap();

    assert_eq!("Austin", participant.username);
}

#[test]
fn add_defaults_by_the_clock_at_the_edges() {
    let mut attrs = VoteAttrs { rfc_id: 9, deadline: None };
    assert!(attrs.add_defaults(Days::new(0)));
    assert!(attrs.deadline.unwrap().secs() >= 0);
    assert_eq!(attrs.rfc_id, 9);

    let mut attrs = VoteAttrs { rfc_id: 9, deadline: None };
    assert!(!attrs.add_defaults(Days::new(u64::MAX)));
    assert_eq!(attrs, VoteAttrs { rfc_id: 9, deadline: None });

    let mut attrs = VoteAttrs { rfc_id: 9, deadline: Some(at(5)) };
    assert!(!attrs.add_defaults(Days::new(100_000_000)));
    assert_eq!(attrs, VoteAttrs { rfc_id: 9, deadline: Some(at(5)) });
}

#[test]
fn make_new_motion_by_the_clock_at_the_edges() {
    let participant = participant();
    let before_the_epoch = vote_with_deadline(Timestamp::new(-1, 999_999_999).unwrap());
    let attrs = MotionAttrs {
        vote: &before_the_epoch,
        participant: &participant,
        type_: Type::Accept,
        comment: None,
    };
    match make_new_motion(attrs) {
        Err(APIError::VoteError(e)) => {
            assert_eq!(e.vote, &before_the_epoch);
            assert_eq!(e.participant, &participant);
            assert!(e.message.ends_with(" when deadline is 1969-12-31 23:59:59.999999999 UTC"));
        },
        _ => panic!(),
    }

    let never_closed = vote_with_deadline(Timestamp::new(MAX_SECS, 999_999_999).unwrap());
    let attrs = MotionAttrs {
        vote: &never_closed,
        participant: &participant,
        type_: Type::Reject,
        comment: Some("late"),
    };
    let request = make_new_motion(attrs).unwrap();
    assert_eq!(request.expect(), Multiplicity::One);
    assert_eq!(request.statement().params[2], text("reject"));
}
