use buzz_relay::deletion::{Action, Db, DbError, Reply, RowChannel, Step, WorkflowDeletion};
use buzz_relay::identity::CommunityId;
use buzz_relay::statement::{
    Bind, DefinitionKey, Statement, ADVISORY_LOCK_SQL, KIND_WORKFLOW_DEF,
};
use buzz_relay::timestamp::{Timestamp, MAX_UTC_SECS, MIN_UTC_SECS};
use buzz_relay::workflow_id::workflow_id;

const UUID_TEXT: &str = "550e8400-e29b-41d4-a716-446655440000";
const UUID: u128 = 0x550e8400_e29b_41d4_a716_446655440000;
const OWNER: [u8; 32] = [5; 32];
const STRANGER: [u8; 32] = [6; 32];

type Fault = &'static str;
type Outcome = Result<Option<u128>, DbError<Fault>>;

#[derive(Clone, Debug, PartialEq)]
struct WorkflowRow {
    community: u128,
    owner: Vec<u8>,
    id: u128,
    name: String,
    channel: Option<u128>,
}

#[derive(Clone, Debug, PartialEq)]
struct EventRow {
    community: u128,
    kind: i32,
    pubkey: Vec<u8>,
    d_tag: String,
    created_at: Timestamp,
    deleted: bool,
}

#[derive(Clone, Debug, PartialEq)]
struct Tables {
    workflows: Vec<WorkflowRow>,
    events: Vec<EventRow>,
}

fn at(secs: i64) -> Timestamp {
    Timestamp { secs, nanos: 0 }
}

fn workflow(owner: [u8; 32], id: u128, name: &str, channel: Option<u128>) -> WorkflowRow {
    WorkflowRow {
        community: 1,
        owner: owner.to_vec(),
        id,
        name: name.to_owned(),
        channel,
    }
}

fn definition(pubkey: [u8; 32], d_tag: &str, created_at: Timestamp) -> EventRow {
    EventRow {
        community: 1,
        kind: 30620,
        pubkey: pubkey.to_vec(),
        d_tag: d_tag.to_owned(),
        created_at,
        deleted: false,
    }
}

fn covers(key: &DefinitionKey, event: &EventRow) -> bool {
    event.community == key.community_id.as_uuid()
        && event.kind == key.kind
        && event.pubkey == key.pubkey
        && event.d_tag == key.d_tag
        && !event.deleted
}

/// Does what a statement says to tables in memory.
fn perform(tables: &mut Tables, statement: Statement) -> Reply<Fault> {
    match statement {
        Statement::ReadHead { key } => {
            let mut head: Option<Timestamp> = None;
            for event in tables.events.iter().filter(|event| covers(&key, event)) {
                head = match head {
                    Some(newest) if !event.created_at.is_later_than(&newest) => Some(newest),
                    _ => Some(event.created_at),
                };
            }
            Reply::Head(head)
        }
        Statement::DeleteWorkflow {
            community_id,
            owner_pubkey,
            workflow_id,
            name,
        } => {
            let community = community_id.as_uuid();
            let owned = |row: &WorkflowRow| row.community == community && row.owner == owner_pubkey;
            let picked = workflow_id.or_else(|| {
                tables
                    .workflows
                    .iter()
                    .find(|row| owned(row) && row.name == name)
                    .map(|row| row.id)
            });
            let place = tables
                .workflows
                .iter()
                .position(|row| owned(row) && Some(row.id) == picked);
            Reply::Deleted(place.map(|place| Ok(tables.workflows.remove(place).channel)))
        }
        Statement::HideDefinitions { key, cutoff } => {
            for event in tables.events.iter_mut() {
                if covers(&key, event) && !event.created_at.is_later_than(&cutoff) {
                    event.deleted = true;
                }
            }
            Reply::Hidden
        }
    }
}

/// Leads a deletion through a transaction on the tables. The action of the given
/// number fails, if one is given.
fn run(tables: &mut Tables, deletion: WorkflowDeletion<Fault>, fails: Option<usize>) -> Outcome {
    let mut deletion = deletion;
    let mut working = tables.clone();
    let mut number = 0;
    loop {
        let reply = if fails == Some(number) {
            Reply::Failed("injected")
        } else {
            match deletion.action() {
                Action::Begin => Reply::Begun,
                Action::Lock(_) => Reply::Locked,
                Action::Run(statement) => perform(&mut working, statement),
                Action::Commit => {
                    *tables = working.clone();
                    Reply::Committed
                }
            }
        };
        assert!(deletion.awaits(&reply));
        match deletion.resume(reply) {
            Step::Continue(next) => deletion = next,
            Step::Return(result) => return result,
        }
        number += 1;
    }
}

fn deletion(d_tag: &str, secs: i64) -> WorkflowDeletion<Fault> {
    Db.delete_workflow_by_coordinate(CommunityId::from_uuid(1), &OWNER, d_tag, secs)
        .unwrap()
}

fn both_representations() -> Tables {
    Tables {
        workflows: vec![
            workflow(STRANGER, UUID, "standup", Some(40)),
            workflow(OWNER, UUID, "standup", Some(41)),
            workflow(OWNER, 8, "other", Some(42)),
        ],
        events: vec![
            definition(OWNER, UUID_TEXT, at(100)),
            definition(OWNER, "other", at(100)),
            definition(STRANGER, UUID_TEXT, at(100)),
        ],
    }
}

fn after_commit() -> Tables {
    let mut tables = both_representations();
    tables.workflows.remove(1);
    tables.events[0].deleted = true;
    tables
}

fn lead_to(d_tag: &str, replies: Vec<Reply<Fault>>) -> WorkflowDeletion<Fault> {
    let mut current = deletion(d_tag, 100);
    for reply in replies {
        assert!(current.awaits(&reply));
        current = match current.resume(reply) {
            Step::Continue(next) => next,
            Step::Return(_) => panic!("the deletion ended early"),
        };
    }
    current
}

fn returned(step: Step<Fault>) -> Outcome {
    match step {
        Step::Continue(_) => panic!("the deletion goes on"),
        Step::Return(result) => result,
    }
}

#[test]
fn deletion_removes_workflow_and_definition() {
    let mut tables = both_representations();
    assert_eq!(run(&mut tables, deletion(UUID_TEXT, 100), None), Ok(Some(41)));
    assert_eq!(tables, after_commit());
}

#[test]
fn failure_at_any_action_keeps_both_and_the_same_deletion_can_be_replayed() {
    for fails in 0..6 {
        let mut tables = both_representations();
        assert_eq!(
            run(&mut tables, deletion(UUID_TEXT, 100), Some(fails)),
            Err(DbError::Database("injected"))
        );
        assert_eq!(tables, both_representations());
        assert_eq!(run(&mut tables, deletion(UUID_TEXT, 100), None), Ok(Some(41)));
        assert_eq!(tables, after_commit());
    }
}

#[test]
fn deletion_takes_six_actions() {
    let mut tables = both_representations();
    assert_eq!(run(&mut tables, deletion(UUID_TEXT, 100), Some(6)), Ok(Some(41)));
}

#[test]
fn repeated_deletion_finds_nothing() {
    let mut tables = both_representations();
    assert_eq!(run(&mut tables, deletion(UUID_TEXT, 100), None), Ok(Some(41)));
    assert_eq!(run(&mut tables, deletion(UUID_TEXT, 100), None), Ok(None));
    assert_eq!(tables, after_commit());
}

#[test]
fn deletion_older_than_the_definition_is_a_no_op() {
    let mut tables = both_representations();
    assert_eq!(run(&mut tables, deletion(UUID_TEXT, 99), None), Ok(None));
    assert_eq!(tables, both_representations());
}

#[test]
fn newest_definition_decides() {
    let mut tables = both_representations();
    tables.events.push(definition(OWNER, UUID_TEXT, at(200)));
    let before = tables.clone();
    assert_eq!(run(&mut tables, deletion(UUID_TEXT, 150), None), Ok(None));
    assert_eq!(tables, before);
    assert_eq!(run(&mut tables, deletion(UUID_TEXT, 200), None), Ok(Some(41)));
    assert!(tables.events[0].deleted);
    assert!(tables.events[3].deleted);
}

#[test]
fn definition_within_the_deletion_s_second_is_newer() {
    let mut tables = both_representations();
    tables.events[0].created_at = Timestamp {
        secs: 100,
        nanos: 1_000,
    };
    let before = tables.clone();
    assert_eq!(run(&mut tables, deletion(UUID_TEXT, 100), None), Ok(None));
    assert_eq!(tables, before);
}

#[test]
fn missing_workflow_is_tolerated() {
    let mut tables = both_representations();
    tables.workflows.remove(1);
    let workflows = tables.workflows.clone();
    assert_eq!(run(&mut tables, deletion(UUID_TEXT, 100), None), Ok(None));
    assert_eq!(tables.workflows, workflows);
    assert!(tables.events[0].deleted);
}

#[test]
fn missing_definition_is_tolerated() {
    let mut tables = both_representations();
    tables.events.remove(0);
    assert_eq!(run(&mut tables, deletion(UUID_TEXT, 100), None), Ok(Some(41)));
    assert_eq!(tables.workflows.len(), 2);
}

#[test]
fn workflow_without_a_channel_gives_back_nothing() {
    let mut tables = both_representations();
    tables.workflows[1].channel = None;
    assert_eq!(run(&mut tables, deletion(UUID_TEXT, 100), None), Ok(None));
    assert_eq!(tables.workflows.len(), 2);
}

#[test]
fn name_coordinate_removes_one_workflow_of_that_name() {
    let mut tables = both_representations();
    assert_eq!(run(&mut tables, deletion("other", 100), None), Ok(Some(42)));
    assert_eq!(tables.workflows, both_representations().workflows[..2].to_vec());
    assert!(tables.events[1].deleted);
    assert!(!tables.events[0].deleted);
}

#[test]
fn deletion_time_that_is_no_instant_is_refused() {
    for secs in [i64::MIN, MIN_UTC_SECS - 1, MAX_UTC_SECS + 1, i64::MAX] {
        let refused: Result<WorkflowDeletion<Fault>, DbError<Fault>> =
            Db.delete_workflow_by_coordinate(CommunityId::from_uuid(1), &OWNER, UUID_TEXT, secs);
        match refused {
            Err(DbError::InvalidTimestamp(given)) => assert_eq!(given, secs),
            _ => panic!("{} was taken for an instant", secs),
        }
    }
}

#[test]
fn every_second_of_the_calendar_is_an_instant() {
    for secs in [MIN_UTC_SECS, -1, 0, 1, 1_431_648_000, MAX_UTC_SECS] {
        assert_eq!(Timestamp::from_secs(secs), Some(Timestamp { secs, nanos: 0 }));
    }
    for secs in [i64::MIN, MIN_UTC_SECS - 1, MAX_UTC_SECS + 1, i64::MAX] {
        assert_eq!(Timestamp::from_secs(secs), None);
    }
}

#[test]
fn instants_are_ordered_by_seconds_then_nanoseconds() {
    let early = Timestamp { secs: 1, nanos: 5 };
    let later = Timestamp { secs: 1, nanos: 6 };
    let latest = Timestamp { secs: 2, nanos: 0 };
    assert!(later.is_later_than(&early));
    assert!(latest.is_later_than(&later));
    assert!(!early.is_later_than(&later));
    assert!(!early.is_later_than(&early));
}

#[test]
fn every_spelling_of_a_uuid_is_a_workflow_id() {
    assert_eq!(workflow_id(UUID_TEXT), Some(UUID));
    assert_eq!(workflow_id("550e8400e29b41d4a716446655440000"), Some(UUID));
    assert_eq!(workflow_id("550E8400-E29B-41D4-A716-446655440000"), Some(UUID));
    assert_eq!(workflow_id("{550e8400-e29b-41d4-a716-446655440000}"), Some(UUID));
    assert_eq!(
        workflow_id("urn:uuid:550e8400-e29b-41d4-a716-446655440000"),
        Some(UUID)
    );
}

#[test]
fn other_texts_are_names() {
    assert_eq!(workflow_id(""), None);
    assert_eq!(workflow_id("deletion-regression"), None);
    assert_eq!(workflow_id("550e8400-e29b-41d4-a716-44665544000"), None);
    assert_eq!(workflow_id("550e8400-e29b-41d4-a716-44665544000g"), None);
    assert_eq!(workflow_id("550e8400 e29b 41d4 a716 446655440000"), None);
}

#[test]
fn lock_is_taken_on_the_definitions_of_the_coordinate() {
    assert_eq!(ADVISORY_LOCK_SQL, "SELECT pg_advisory_xact_lock($1)");
    assert_eq!(KIND_WORKFLOW_DEF, 30_620);
    match lead_to(UUID_TEXT, vec![Reply::Begun]).action() {
        Action::Lock(key) => {
            assert_eq!(key.community_id, CommunityId::from_uuid(1));
            assert_eq!(key.kind, 30_620);
            assert_eq!(key.pubkey, OWNER.to_vec());
            assert_eq!(key.d_tag, UUID_TEXT);
        }
        other => panic!("expected the lock, got {:?}", other),
    }
}

#[test]
fn transaction_is_opened_first() {
    assert!(matches!(deletion(UUID_TEXT, 100).action(), Action::Begin));
}

fn statement_of(deletion: WorkflowDeletion<Fault>) -> Statement {
    match deletion.action() {
        Action::Run(statement) => statement,
        other => panic!("expected a statement, got {:?}", other),
    }
}

#[test]
fn head_statement_has_its_text_and_parameters() {
    let statement = statement_of(lead_to(UUID_TEXT, vec![Reply::Begun, Reply::Locked]));
    assert_eq!(
        statement.sql(),
        "SELECT created_at FROM events WHERE community_id = $1 AND kind = $2 \
         AND pubkey = $3 AND d_tag = $4 AND deleted_at IS NULL \
         ORDER BY created_at DESC LIMIT 1"
    );
    let binds = statement.into_binds();
    assert_eq!(binds.len(), 4);
    assert!(matches!(&binds[0], Bind::Uuid(1)));
    assert!(matches!(&binds[1], Bind::Int(30_620)));
    assert!(matches!(&binds[2], Bind::Bytes(bytes) if bytes[..] == OWNER));
    assert!(matches!(&binds[3], Bind::Text(text) if text == UUID_TEXT));
}

#[test]
fn delete_statement_has_its_text_and_parameters() {
    let replies = || vec![Reply::Begun, Reply::Locked, Reply::Head(None)];
    let statement = statement_of(lead_to(UUID_TEXT, replies()));
    assert_eq!(
        statement.sql(),
        "DELETE FROM workflows WHERE community_id = $1 AND owner_pubkey = $2 \
         AND id = COALESCE($3::uuid, (SELECT id FROM workflows \
         WHERE community_id = $1 AND owner_pubkey = $2 AND name = $4 LIMIT 1)) \
         RETURNING channel_id"
    );
    let binds = statement.into_binds();
    assert_eq!(binds.len(), 4);
    assert!(matches!(&binds[0], Bind::Uuid(1)));
    assert!(matches!(&binds[1], Bind::Bytes(bytes) if bytes[..] == OWNER));
    assert!(matches!(&binds[2], Bind::OptionalUuid(Some(UUID))));
    assert!(matches!(&binds[3], Bind::Text(text) if text == UUID_TEXT));

    let binds = statement_of(lead_to("other", replies())).into_binds();
    assert!(matches!(&binds[2], Bind::OptionalUuid(None)));
    assert!(matches!(&binds[3], Bind::Text(text) if text == "other"));
}

#[test]
fn hide_statement_has_its_text_and_parameters() {
    let statement = statement_of(lead_to(
        UUID_TEXT,
        vec![
            Reply::Begun,
            Reply::Locked,
            Reply::Head(Some(at(100))),
            Reply::Deleted(None),
        ],
    ));
    assert_eq!(
        statement.sql(),
        "UPDATE events SET deleted_at = NOW() WHERE community_id = $1 AND kind = $2 \
         AND pubkey = $3 AND d_tag = $4 AND deleted_at IS NULL AND created_at <= $5"
    );
    let binds = statement.into_binds();
    assert_eq!(binds.len(), 5);
    assert!(matches!(&binds[0], Bind::Uuid(1)));
    assert!(matches!(&binds[1], Bind::Int(30_620)));
    assert!(matches!(&binds[2], Bind::Bytes(bytes) if bytes[..] == OWNER));
    assert!(matches!(&binds[3], Bind::Text(text) if text == UUID_TEXT));
    assert!(matches!(&binds[4], Bind::Instant(instant) if *instant == at(100)));
}

#[test]
fn unreadable_row_fails_the_deletion_before_the_commit() {
    let row: Option<RowChannel<Fault>> = Some(Err("bad column"));
    let waiting = lead_to(
        UUID_TEXT,
        vec![
            Reply::Begun,
            Reply::Locked,
            Reply::Head(None),
            Reply::Deleted(row),
        ],
    );
    assert_eq!(
        returned(waiting.resume(Reply::Hidden)),
        Err(DbError::Database("bad column"))
    );
}

#[test]
fn reply_to_another_action_is_not_awaited() {
    let start = deletion(UUID_TEXT, 100);
    assert!(start.awaits(&Reply::Begun));
    assert!(start.awaits(&Reply::Failed("lost")));
    assert!(!start.awaits(&Reply::Locked));
    assert!(!start.awaits(&Reply::Head(None)));
    assert!(!start.awaits(&Reply::Deleted(None)));
    assert!(!start.awaits(&Reply::Hidden));
    assert!(!start.awaits(&Reply::Committed));
}
