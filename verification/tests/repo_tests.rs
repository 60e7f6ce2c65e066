use rfcb::assocs::{
    Association, AssociationLoader, Data, HasMany, HasOne, Loadable, Multiplicity,
};
use rfcb::attributes::{DBRecord, PrimaryKeyQuery, Queryable};
use rfcb::changeset::{Changeset, Iden, Valuable};
use rfcb::entities::motion::{Motion, MotionAssocQuery, Type};
use rfcb::entities::participants::{Participant, ParticipantAttrs};
use rfcb::entities::rfc::{RFCRow, Status, RFC};
use rfcb::entities::vote::{Vote, VoteRow};
use rfcb::error::{BackendError, ChangeError};
use rfcb::repo;
use rfcb::row::{Cell, Row};
use rfcb::value::{SqlType, SqlValue, Timestamp};

fn at(secs: i64) -> Timestamp {
    Timestamp::new(secs, 0).unwrap()
}

fn cell(name: &str, value: SqlValue) -> Cell {
    Cell { name: name.to_string(), value }
}

fn text(s: &str) -> SqlValue {
    SqlValue::Text(s.to_string())
}

fn participant_row(id: i32, username: &str) -> Row {
    Row {
        cells: vec![
            cell("id", SqlValue::Int(id)),
            cell("username", text(username)),
            cell("created_at", SqlValue::Timestamp(at(1))),
            cell("updated_at", SqlValue::Timestamp(at(2))),
        ],
    }
}

fn vote_row(id: i32, rfc_id: i32) -> Row {
    Row {
        cells: vec![
            cell("id", SqlValue::Int(id)),
            cell("rfc_id", SqlValue::Int(rfc_id)),
            cell("deadline", SqlValue::Timestamp(at(50))),
            cell("created_at", SqlValue::Timestamp(at(1))),
            cell("updated_at", SqlValue::Timestamp(at(2))),
        ],
    }
}

fn motion_row(id: i32, vote_id: i32) -> Row {
    Row {
        cells: vec![
            cell("id", SqlValue::Int(id)),
            cell("vote_id", SqlValue::Int(vote_id)),
            cell("participant_id", SqlValue::Int(2)),
            cell("type", text("accept")),
            cell("comment", text("Hello")),
            cell("created_at", SqlValue::Timestamp(at(100))),
            cell("updated_at", SqlValue::Timestamp(at(200))),
        ],
    }
}

fn rfc(id: i32) -> RFC {
    RFC::from(RFCRow {
        id,
        status: Status::Active,
        proposal: "Who goes there".to_string(),
        topic: "the topic".to_string(),
        supersedes: None,
        created_at: at(1),
        updated_at: at(2),
    })
}

fn vote(id: i32, rfc_id: i32) -> Vote {
    Vote::from(VoteRow { id, rfc_id, deadline: at(50), created_at: at(1), updated_at: at(2) })
}

#[derive(Debug, Clone, PartialEq, Eq)]
enum ParticipantChange {
    Username(String),
    CreatedAt(Timestamp),
}

impl Iden for ParticipantChange {
    fn unquoted(&self) -> &'static str {
        match self {
            Self::Username(_) => "username",
            Self::CreatedAt(_) => "created_at",
        }
    }
}

impl Valuable for ParticipantChange {
    fn value(&self) -> SqlValue {
        match self {
            Self::Username(name) => SqlValue::Text(name.clone()),
            Self::CreatedAt(t) => SqlValue::Timestamp(*t),
        }
    }
}

type Rule = fn(&ParticipantChange) -> Result<(), &'static str>;

fn never(_: &ParticipantChange) -> Result<(), &'static str> {
    Err("not allowed")
}

fn too(_: &ParticipantChange) -> Result<(), &'static str> {
    Err("nor this")
}

fn fine(_: &ParticipantChange) -> Result<(), &'static str> {
    Ok(())
}

#[test]
fn insert_yields_the_statement_when_valid() {
    let request = repo::insert(ParticipantAttrs { username: "Austin".to_string() }).unwrap();
    assert_eq!(request.expect(), Multiplicity::One);
    assert_eq!(
        request.statement().sql,
        "INSERT INTO \"participants\" (\"username\") VALUES ($1) RETURNING *"
    );
    assert_eq!(request.statement().params, vec![text("Austin")]);
    let participant: Participant =
        repo::insert_reply(Ok(vec![participant_row(1, "Austin")])).unwrap();
    assert_eq!("Austin", participant.username);
}

#[test]
fn insert_of_invalid_changes_asks_for_nothing() {
    let mut cs: Changeset<ParticipantChange, Participant, Rule> = Changeset::new(None);
    cs.add_change(
        ParticipantChange::Username("Austin".to_string()),
        Some(vec![never as Rule, fine as Rule]),
    )
    .add_change(ParticipantChange::CreatedAt(at(5)), Some(vec![too as Rule]));
    assert_eq!(
        repo::insert(cs),
        Err(ChangeError::ValidationError(vec!["not allowed", "nor this"]))
    );
}

#[test]
fn insert_of_valid_changes_yields_their_statement() {
    let mut cs: Changeset<ParticipantChange, Participant, Rule> = Changeset::new(None);
    cs.add_change(ParticipantChange::Username("Austin".to_string()), Some(vec![fine as Rule]))
        .add_change(ParticipantChange::CreatedAt(at(5)), None);
    let request = repo::insert(cs).unwrap();
    assert_eq!(request.expect(), Multiplicity::One);
    assert_eq!(
        request.statement().sql,
        "INSERT INTO \"participants\" (\"username\", \"created_at\") VALUES ($1, $2) RETURNING *"
    );
    assert_eq!(request.statement().params, vec![text("Austin"), SqlValue::Timestamp(at(5))]);
}

#[test]
fn one_reads_the_first_row() {
    let request = repo::one(&MotionAssocQuery { vote_id: 3 });
    assert_eq!(request.expect(), Multiplicity::One);
    assert_eq!(request.statement().sql, "SELECT * FROM \"motions\" WHERE \"vote_id\" = $1");
    let rows = vec![motion_row(7, 3), motion_row(8, 3)];
    let motion: Motion = repo::one_reply(Ok(rows)).unwrap();
    assert_eq!(motion.id, 7);
    assert_eq!(motion.type_, Type::Accept);
    assert_eq!(motion.comment, Some("Hello".to_string()));
}

#[test]
fn one_of_no_row_is_an_error() {
    let r: Result<Motion, ChangeError> = repo::one_reply(Ok(vec![]));
    assert_eq!(r, Err(ChangeError::DBError(BackendError::RowNotFound)));
}

#[test]
fn all_of_no_row_is_empty() {
    let request = repo::all(&MotionAssocQuery { vote_id: 3 });
    assert_eq!(request.expect(), Multiplicity::Many);
    let r: Result<Vec<Motion>, ChangeError> = repo::all_reply(Ok(vec![]));
    assert_eq!(r, Ok(vec![]));
}

#[test]
fn all_keeps_the_order_of_the_result() {
    let rows = vec![motion_row(9, 3), motion_row(7, 3), motion_row(8, 3)];
    let motions: Vec<Motion> = repo::all_reply(Ok(rows)).unwrap();
    assert_eq!(motions.iter().map(|m| m.id).collect::<Vec<_>>(), vec![9, 7, 8]);
}

#[test]
fn backend_failures_pass_through() {
    let failure = || Err(BackendError::Database("connection reset".to_string()));
    let expected = ChangeError::DBError(BackendError::Database("connection reset".to_string()));
    assert_eq!(repo::one_reply::<Motion>(failure()), Err(expected));
    let expected = ChangeError::DBError(BackendError::Database("connection reset".to_string()));
    assert_eq!(repo::all_reply::<Motion>(failure()), Err(expected));
    let expected = ChangeError::DBError(BackendError::Database("connection reset".to_string()));
    assert_eq!(repo::insert_reply::<Motion>(failure()), Err(expected));
    assert_eq!(
        ChangeError::from(BackendError::RowNotFound),
        ChangeError::DBError(BackendError::RowNotFound)
    );
}

#[test]
fn a_row_that_does_not_decode_fails_the_read() {
    let mut bad = motion_row(8, 3);
    bad.cells[3] = cell("type", SqlValue::Null(SqlType::Text));
    let mut worse = motion_row(9, 3);
    worse.cells.clear();
    let rows = vec![motion_row(7, 3), bad, worse];
    assert_eq!(
        repo::all_reply::<Motion>(Ok(rows)),
        Err(ChangeError::DBError(BackendError::ColumnDecode("type".to_string())))
    );
    assert_eq!(
        repo::one_reply::<Participant>(Ok(vec![motion_row(7, 3)])),
        Err(ChangeError::DBError(BackendError::ColumnNotFound("username".to_string())))
    );
}

#[test]
fn lookup_by_primary_key() {
    let query: PrimaryKeyQuery<Participant> = PrimaryKeyQuery::new(4);
    let s = query.to_sql();
    assert_eq!(s.sql, "SELECT * FROM \"participants\" WHERE \"id\" = $1");
    assert_eq!(s.params, vec![SqlValue::Int(4)]);
    let inserted: Participant = repo::insert_reply(Ok(vec![participant_row(4, "Austin")])).unwrap();
    let found: Participant = repo::one_reply(Ok(vec![participant_row(4, "Austin")])).unwrap();
    assert_eq!(inserted, found);
}

#[test]
fn rfc_can_get_votes() {
    let mut rfc = rfc(6);
    assert_eq!(rfc.votes(), None);
    let request = rfc.votes_request().unwrap();
    assert_eq!(request.expect(), Multiplicity::Many);
    assert_eq!(request.statement().sql, "SELECT * FROM \"votes\" WHERE \"rfc_id\" = $1");
    assert_eq!(request.statement().params, vec![SqlValue::Int(6)]);

    assert_eq!(rfc.votes_reply(Ok(vec![vote_row(11, 6), vote_row(12, 6)])), Ok(()));
    let votes: Vec<_> = rfc.votes().unwrap().iter().map(|v| *v.id()).collect();
    assert_eq!(vec![11, 12], votes);
    assert_eq!(rfc.votes().unwrap(), &[vote(11, 6), vote(12, 6)][..]);
}

#[test]
fn loading_twice_is_one_round_trip() {
    let mut rfc = rfc(6);
    assert!(rfc.votes_request().is_some());
    assert_eq!(rfc.votes_reply(Ok(vec![vote_row(11, 6)])), Ok(()));
    assert_eq!(rfc.votes_request(), None);
    assert_eq!(rfc.votes_reply(Ok(vec![vote_row(12, 6), vote_row(13, 6)])), Ok(()));
    assert_eq!(rfc.votes().unwrap(), &[vote(11, 6)][..]);
    assert_eq!(rfc.votes_reply(Err(BackendError::RowNotFound)), Ok(()));
    assert_eq!(rfc.votes().unwrap(), &[vote(11, 6)][..]);
    assert_eq!(*rfc.id(), 6);
}

#[test]
fn a_failed_load_leaves_the_association_unloaded() {
    let mut rfc = rfc(6);
    assert_eq!(
        rfc.votes_reply(Err(BackendError::Database("gone".to_string()))),
        Err(ChangeError::DBError(BackendError::Database("gone".to_string())))
    );
    assert_eq!(rfc.votes(), None);
    assert!(rfc.votes_request().is_some());
    let mut bad = vote_row(11, 6);
    bad.cells.remove(2);
    assert_eq!(
        rfc.votes_reply(Ok(vec![vote_row(10, 6), bad])),
        Err(ChangeError::DBError(BackendError::ColumnNotFound("deadline".to_string())))
    );
    assert_eq!(rfc.votes(), None);
    assert_eq!(rfc.votes_reply(Ok(vec![])), Ok(()));
    assert_eq!(rfc.votes().unwrap().len(), 0);
    assert_eq!(rfc.votes_request(), None);
}

#[test]
fn has_many_takes_only_its_shape_and_only_once() {
    let mut motions: HasMany<Motion, MotionAssocQuery> = HasMany::new(MotionAssocQuery { vote_id: 3 });
    assert!(!motions.is_loaded());
    assert_eq!(motions.multiplicity(), Multiplicity::Many);
    assert_eq!(motions.query(), &MotionAssocQuery { vote_id: 3 });

    motions.load(Loadable::NotLoaded);
    assert!(!motions.is_loaded());
    let one: Motion = repo::one_reply(Ok(vec![motion_row(7, 3)])).unwrap();
    motions.load(Loadable::Loaded(Data::One(one)));
    assert!(!motions.is_loaded());
    motions.load(Loadable::Loaded(Data::Empty));
    assert!(!motions.is_loaded());

    let request = repo::load(&motions).unwrap();
    assert_eq!(request.expect(), Multiplicity::Many);
    assert_eq!(request.statement().sql, "SELECT * FROM \"motions\" WHERE \"vote_id\" = $1");
    assert_eq!(request.statement().params, vec![SqlValue::Int(3)]);
    assert_eq!(repo::load_reply(&mut motions, Ok(vec![motion_row(7, 3), motion_row(8, 3)])), Ok(()));
    assert!(motions.is_loaded());
    assert_eq!(motions.unwrap().iter().map(|m| m.id).collect::<Vec<_>>(), vec![7, 8]);
    assert!(repo::load(&motions).is_none());

    motions.load(Loadable::NotLoaded);
    assert!(motions.is_loaded());
    motions.load(Loadable::Loaded(Data::Many(vec![])));
    assert_eq!(motions.unwrap().len(), 2);
}

#[test]
fn loadable_and_data_give_what_they_hold() {
    let loaded: Loadable<i32> = Loadable::Loaded(Data::Many(vec![1, 2, 3]));
    assert!(loaded.is_loaded());
    assert!(!Loadable::<i32>::NotLoaded.is_loaded());
    assert_eq!(loaded.unwrap_to_inner_ref(), &Data::Many(vec![1, 2, 3]));
    assert_eq!(loaded.unwrap_to_inner_ref().unwrap_option_many(), Some(&[1, 2, 3][..]));
    assert_eq!(Data::<i32>::Empty.unwrap_option_many(), None);
    assert_eq!(Data::<i32>::Empty.unwrap_option_one(), None);
    assert_eq!(Data::One(5).unwrap_option_one(), Some(&5));
    assert_eq!(Data::<i32>::Many(vec![]).unwrap_option_many(), Some(&[][..]));
}

#[test]
fn has_one_loads_one_record() {
    let mut owner: HasOne<Vote, PrimaryKeyQuery<VoteRow>> = HasOne::new(PrimaryKeyQuery::new(11));
    assert_eq!(owner.multiplicity(), Multiplicity::One);
    assert!(!owner.is_loaded());
    owner.load(Loadable::Loaded(Data::Many(vec![vote(1, 1)])));
    assert!(!owner.is_loaded());

    let request = repo::load(&owner).unwrap();
    assert_eq!(request.expect(), Multiplicity::One);
    assert_eq!(request.statement().sql, "SELECT * FROM \"votes\" WHERE \"id\" = $1");
    assert_eq!(request.statement().params, vec![SqlValue::Int(11)]);

    assert_eq!(
        repo::load_reply(&mut owner, Ok(vec![])),
        Err(ChangeError::DBError(BackendError::RowNotFound))
    );
    assert!(!owner.is_loaded());

    assert_eq!(repo::load_reply(&mut owner, Ok(vec![vote_row(11, 6), vote_row(12, 6)])), Ok(()));
    assert!(owner.is_loaded());
    assert_eq!(owner.unwrap(), Some(&vote(11, 6)));
    assert!(repo::load(&owner).is_none());
    assert_eq!(repo::load_reply(&mut owner, Ok(vec![vote_row(12, 6)])), Ok(()));
    assert_eq!(owner.unwrap(), Some(&vote(11, 6)));

    let mut nobody: HasOne<Vote, PrimaryKeyQuery<VoteRow>> = HasOne::new(PrimaryKeyQuery::new(1));
    nobody.load(Loadable::Loaded(Data::Empty));
    assert!(nobody.is_loaded());
    assert_eq!(nobody.unwrap(), None);
}

#[test]
fn can_get_the_votes() {
    let mut rfc = rfc(6);
    let vote = vote(11, 6);
    if let Some(request) = rfc.votes_request() {
        assert_eq!(request.statement().params, vec![SqlValue::Int(6)]);
        rfc.votes_reply(Ok(vec![vote_row(11, 6)])).unwrap();
    }
    if let Some(votes) = rfc.votes() {
        assert_eq!(&vec![vote], votes)
    } else {
        panic!()
    }
}

#[test]
fn round_trip_by_primary_key() {
    let stored: Participant = repo::insert_reply(Ok(vec![participant_row(4, "Austin")])).unwrap();
    let lookup: PrimaryKeyQuery<Participant> = PrimaryKeyQuery::new(stored.primary_key());
    let request = repo::one(&lookup);
    assert_eq!(request.statement().sql, "SELECT * FROM \"participants\" WHERE \"id\" = $1");
    assert_eq!(request.statement().params, vec![SqlValue::Int(4)]);
    let read: Participant =
        repo::one_reply(Ok(vec![participant_row(4, "Austin"), participant_row(5, "Bo")])).unwrap();
    assert_eq!(read.primary_key(), stored.primary_key());
    assert_eq!(read, stored);

    let motion: Motion = repo::insert_reply(Ok(vec![motion_row(7, 3)])).unwrap();
    let again: Motion = repo::one_reply(Ok(vec![motion_row(7, 3)])).unwrap();
    assert_eq!(motion.primary_key(), 7);
    assert_eq!(again, motion);
}
