//! What holds of a workflow deletion while other transactions are at work on the
//! same tables.
//!
//! What the replacement lock is good for shows here: from the moment at which the
//! deletion has read the newest definition nobody saves another one, so what it
//! found out about the definitions is still so when it commits.
use crate::deletion::{ActionView, DeletionView, Reply, Stage, StepView};
use crate::deletion_laws::{ends_with, lemma_head_tells_staleness, lemma_picked_and_addressed};
use crate::statement::StatementView;
use crate::store::{
    deletes_picked, deletes_workflow, hides_definitions, is_run, is_shared_run, others_change_row, picks,
    reads_row, same_at, EventRow, Session, Store,
};
use crate::timestamp::{law_later_goes_by_seconds_first, Timestamp};
use vstd::prelude::*;

verus! {

impl<E> DeletionView<E> {
    /// Whether no definition at the coordinate is live.
    pub open spec fn is_undefined(self, store: Store) -> bool {
        forall|place: int|
            !#[trigger] store.live_definition(self.coordinate.definition_key(), place)
    }

    /// Whether a workflow of the owner, of the given channel, stands at a place of
    /// one store and is gone from another.
    pub open spec fn removes_at(
        self,
        before: Store,
        after: Store,
        channel: u128,
        place: int,
    ) -> bool {
        &&& before.owned(self.coordinate.community_id, self.coordinate.owner_pubkey, place)
        &&& before.workflows[place].channel_id == Some(channel)
        &&& !after.workflows.contains_key(place)
    }

    /// Whether a workflow of the owner, of the given channel, is gone from one store
    /// to another.
    pub open spec fn removes(self, before: Store, after: Store, channel: u128) -> bool {
        exists|place: int| #[trigger] self.removes_at(before, after, channel, place)
    }
}

/// What holds of a session at every point of a run, whatever others do.
spec fn shared_sound<E>(deletion: DeletionView<E>, session: Session<E>) -> bool {
    let key = deletion.coordinate.definition_key();
    match session.progress {
        StepView::Continue(current) => {
            &&& current == deletion.at(current.stage)
            &&& !session.commit_sent
            &&& deletion.confines(session.committed, session.working)
            &&& match current.stage {
                Stage::Begin => session.working == session.committed && session.locked is None,
                Stage::Lock => session.working == session.committed && session.locked is None,
                Stage::ReadHead => session.working == session.committed && session.locked == Some(
                    key,
                ),
                Stage::DeleteWorkflow => {
                    &&& session.working == session.committed
                    &&& session.locked == Some(key)
                    &&& !deletion.is_stale(session.working)
                },
                Stage::HideDefinitions { row } => {
                    &&& session.working.events == session.committed.events
                    &&& session.locked == Some(key)
                    &&& !deletion.is_stale(session.working)
                    &&& row matches Some(Ok(Some(channel))) ==> deletion.removes(
                        session.committed,
                        session.working,
                        channel,
                    )
                },
                Stage::Commit { channel } => {
                    &&& session.locked == Some(key)
                    &&& deletion.is_undefined(session.working)
                    &&& channel matches Some(channel) ==> deletion.removes(
                        session.committed,
                        session.working,
                        channel,
                    )
                },
            }
        },
        StepView::Return(Ok(channel)) => {
            &&& session.locked == Some(key)
            &&& if session.commit_sent {
                deletion.is_undefined(session.committed)
            } else {
                deletion.is_stale(session.committed) && channel is None
            }
        },
        StepView::Return(Err(_)) => true,
    }
}

/// The workflow's deletion keeps to the coordinate, and a channel that it reads is
/// that of a workflow which is gone.
proof fn lemma_dropping_is_confined<E>(
    deletion: DeletionView<E>,
    before: Store,
    after: Store,
    row: Option<Option<u128>>,
)
    requires
        deletion.drops_workflow(before, after, row),
    ensures
        after.events == before.events,
        deletion.confines(before, after),
        row matches Some(Some(channel)) ==> deletion.removes(before, after, channel),
{
    let community_id = deletion.coordinate.community_id;
    let owner_pubkey = deletion.coordinate.owner_pubkey;
    let name = deletion.coordinate.d_tag;
    let picked = choose|picked: Option<u128>| #[trigger]
        picks(before, community_id, owner_pubkey, deletion.workflow_id, name, picked)
            && deletes_picked(before, after, community_id, owner_pubkey, picked, row);
    lemma_picked_and_addressed(deletion, before, picked);
    assert forall|place: int| #[trigger] before.loses_workflow(after, place) implies before.owned(
        community_id,
        owner_pubkey,
        place,
    ) && exists|addressed: int| #[trigger]
        deletion.addresses(before, addressed) && before.workflows[addressed].id
            == before.workflows[place].id && !after.workflows.contains_key(addressed) by {
        assert(before.is_picked(community_id, owner_pubkey, picked, place));
        let addressed = choose|addressed: int| #[trigger]
            deletion.addresses(before, addressed) && before.is_picked(
                community_id,
                owner_pubkey,
                picked,
                addressed,
            );
        assert(!after.workflows.contains_key(addressed));
    }
    if let Some(Some(channel)) = row {
        let place = choose|place: int| #[trigger]
            before.is_picked(community_id, owner_pubkey, picked, place)
                && before.workflows[place].channel_id == Some(channel);
        assert(!after.workflows.contains_key(place));
        assert(deletion.removes_at(before, after, channel, place));
    }
}

/// Hiding the definitions keeps to the coordinate, and leaves none live where none
/// was too new.
proof fn lemma_hiding_is_confined<E>(
    deletion: DeletionView<E>,
    committed: Store,
    working: Store,
    after: Store,
    now: Timestamp,
)
    requires
        deletion.confines(committed, working),
        working.events == committed.events,
        !deletion.is_stale(working),
        hides_definitions(
            working,
            after,
            deletion.coordinate.definition_key(),
            deletion.cutoff,
            now,
        ),
    ensures
        deletion.confines(committed, after),
        deletion.is_undefined(after),
{
    let key = deletion.coordinate.definition_key();
    assert forall|place: int| !#[trigger] after.live_definition(key, place) by {
        if after.live_definition(key, place) {
            assert(after.events.dom().contains(place));
            assert(after.events[place].deleted_at is None);
            assert(working.live_definition(key, place));
        }
    }
    assert forall|place: int| #[trigger] committed.loses_workflow(after, place) implies committed
        .loses_workflow(working, place) by {}
    assert forall|place: int| committed.events.contains_key(place) implies {
        let event = #[trigger] after.events[place];
        ||| event == committed.events[place]
        ||| {
            &&& committed.live_definition(key, place)
            &&& !committed.events[place].created_at.later_than(deletion.cutoff)
            &&& event == EventRow {
                deleted_at: event.deleted_at,
                ..committed.events[place]
            }
        }
    } by {
        assert(working.events.contains_key(place));
        assert(working.live_definition(key, place) == committed.live_definition(key, place));
    }
}

/// A removal is not undone where the workflows stay as they are.
proof fn lemma_removal_stays<E>(
    deletion: DeletionView<E>,
    committed: Store,
    working: Store,
    after: Store,
    channel: u128,
)
    requires
        deletion.removes(committed, working, channel),
        after.workflows == working.workflows,
    ensures
        deletion.removes(committed, after, channel),
{
    let place = choose|place: int| #[trigger]
        deletion.removes_at(committed, working, channel, place);
    assert(deletion.removes_at(committed, after, channel, place));
}

proof fn lemma_read_head_keeps_shared_sound<E>(
    deletion: DeletionView<E>,
    session: Session<E>,
    reply: Reply<E>,
    after: Session<E>,
)
    requires
        shared_sound(deletion, session),
        session.advances_by(reply, after),
        reply is Head,
    ensures
        shared_sound(deletion, after),
{
    lemma_head_tells_staleness(deletion, session.working, reply->Head_0);
}

proof fn lemma_delete_keeps_shared_sound<E>(
    deletion: DeletionView<E>,
    session: Session<E>,
    reply: Reply<E>,
    after: Session<E>,
)
    requires
        shared_sound(deletion, session),
        session.advances_by(reply, after),
        reply is Deleted,
    ensures
        shared_sound(deletion, after),
{
    let current = session.progress->Continue_0;
    let key = deletion.coordinate.definition_key();
    let row = reply->Deleted_0;
    let stands = choose|stands: Option<Option<u128>>| #[trigger]
        deletes_workflow(
            session.working,
            after.working,
            current.coordinate.community_id,
            current.coordinate.owner_pubkey,
            current.workflow_id,
            current.coordinate.d_tag,
            stands,
        ) && reads_row(row, stands);
    lemma_dropping_is_confined(deletion, session.working, after.working, stands);
    assert(!deletion.is_stale(after.working)) by {
        if deletion.is_stale(after.working) {
            let place = choose|place: int| #[trigger]
                after.working.live_definition(key, place)
                    && after.working.events[place].created_at.later_than(deletion.cutoff);
            assert(session.working.live_definition(key, place));
        }
    }
}

proof fn lemma_hide_keeps_shared_sound<E>(
    deletion: DeletionView<E>,
    session: Session<E>,
    reply: Reply<E>,
    after: Session<E>,
)
    requires
        shared_sound(deletion, session),
        session.advances_by(reply, after),
        reply is Hidden,
    ensures
        shared_sound(deletion, after),
{
    let current = session.progress->Continue_0;
    assert(deletion.confines(session.committed, after.working) && deletion.is_undefined(
        after.working,
    ) && after.working.workflows == session.working.workflows) by {
        let now = choose|now: Timestamp| #[trigger]
            hides_definitions(
                session.working,
                after.working,
                current.coordinate.definition_key(),
                current.cutoff,
                now,
            );
        lemma_hiding_is_confined(deletion, session.committed, session.working, after.working, now);
    }
    if let Some(Ok(Some(channel))) = current.stage->row {
        lemma_removal_stays(deletion, session.committed, session.working, after.working, channel);
    }
}

proof fn lemma_other_replies_keep_shared_sound<E>(
    deletion: DeletionView<E>,
    session: Session<E>,
    reply: Reply<E>,
    after: Session<E>,
)
    requires
        shared_sound(deletion, session),
        session.advances_by(reply, after),
        !(reply is Head || reply is Deleted || reply is Hidden),
    ensures
        shared_sound(deletion, after),
{
}

proof fn lemma_advance_keeps_shared_sound<E>(
    deletion: DeletionView<E>,
    session: Session<E>,
    reply: Reply<E>,
    after: Session<E>,
)
    requires
        shared_sound(deletion, session),
        session.advances_by(reply, after),
    ensures
        shared_sound(deletion, after),
{
    match reply {
        Reply::Head(_) => {
            lemma_read_head_keeps_shared_sound(deletion, session, reply, after);
        },
        Reply::Deleted(_) => {
            lemma_delete_keeps_shared_sound(deletion, session, reply, after);
        },
        Reply::Hidden => {
            lemma_hide_keeps_shared_sound(deletion, session, reply, after);
        },
        _ => {
            lemma_other_replies_keep_shared_sound(deletion, session, reply, after);
        },
    }
}

/// Where the open transaction has written nothing, it and everybody see the same
/// after others were at work.
proof fn lemma_equal_tables_stay_equal<R>(
    committed: Map<int, R>,
    working: Map<int, R>,
    committed_after: Map<int, R>,
    working_after: Map<int, R>,
)
    requires
        working == committed,
        forall|place: int| #[trigger]
            others_change_row(committed, working, committed_after, working_after, place),
    ensures
        working_after == committed_after,
{
    assert forall|place: int|
        working_after.contains_key(place) <==> committed_after.contains_key(place) by {
        assert(others_change_row(committed, working, committed_after, working_after, place));
    }
    assert forall|place: int| working_after.contains_key(place) implies working_after[place]
        == committed_after[place] by {
        assert(others_change_row(committed, working, committed_after, working_after, place));
    }
    assert(working_after =~= committed_after);
}

/// What others do cannot blur what the deletion itself has changed.
proof fn lemma_disturbance_keeps_confines<E>(
    deletion: DeletionView<E>,
    session: Session<E>,
    after: Session<E>,
)
    requires
        deletion.confines(session.committed, session.working),
        session.is_disturbed_into(after),
    ensures
        deletion.confines(after.committed, after.working),
        forall|channel: u128| #[trigger]
            deletion.removes(session.committed, session.working, channel) ==> deletion.removes(
                after.committed,
                after.working,
                channel,
            ),
{
    let key = deletion.coordinate.definition_key();
    let community_id = deletion.coordinate.community_id;
    let owner_pubkey = deletion.coordinate.owner_pubkey;
    let (c, w) = (session.committed, session.working);
    let (c2, w2) = (after.committed, after.working);
    assert forall|place: int| w2.events.contains_key(place) <==> c2.events.contains_key(place) by {
        assert(others_change_row(c.events, w.events, c2.events, w2.events, place));
        assert(w.events.dom().contains(place) <==> c.events.dom().contains(place));
    }
    assert(w2.events.dom() =~= c2.events.dom());
    assert forall|place: int| c2.events.contains_key(place) implies {
        let event = #[trigger] w2.events[place];
        ||| event == c2.events[place]
        ||| {
            &&& c2.live_definition(key, place)
            &&& !c2.events[place].created_at.later_than(deletion.cutoff)
            &&& event == EventRow {
                deleted_at: event.deleted_at,
                ..c2.events[place]
            }
        }
    } by {
        assert(others_change_row(c.events, w.events, c2.events, w2.events, place));
        assert(w2.events.dom().contains(place));
        if !same_at(c.events, w.events, place) {
            assert(w.events[place] == w2.events[place]);
        }
    }
    assert forall|place: int| #[trigger] w2.workflows.contains_key(place) implies c2.workflows
        .contains_key(place) && w2.workflows[place] == c2.workflows[place] by {
        assert(others_change_row(c.workflows, w.workflows, c2.workflows, w2.workflows, place));
        if !same_at(c.workflows, w.workflows, place) {
            assert(w.workflows.contains_key(place));
        }
    }
    assert forall|place: int| #[trigger] c2.loses_workflow(w2, place) implies c2.owned(
        community_id,
        owner_pubkey,
        place,
    ) && exists|addressed: int| #[trigger]
        deletion.addresses(c2, addressed) && c2.workflows[addressed].id
            == c2.workflows[place].id && !w2.workflows.contains_key(addressed) by {
        assert(others_change_row(c.workflows, w.workflows, c2.workflows, w2.workflows, place));
        assert(c.loses_workflow(w, place));
        let addressed = choose|addressed: int| #[trigger]
            deletion.addresses(c, addressed) && c.workflows[addressed].id
                == c.workflows[place].id && !w.workflows.contains_key(addressed);
        assert(others_change_row(c.workflows, w.workflows, c2.workflows, w2.workflows, addressed));
        assert(deletion.addresses(c2, addressed));
    }
    assert forall|channel: u128| #[trigger] deletion.removes(c, w, channel) implies deletion
        .removes(c2, w2, channel) by {
        let place = choose|place: int| #[trigger] deletion.removes_at(c, w, channel, place);
        assert(others_change_row(c.workflows, w.workflows, c2.workflows, w2.workflows, place));
        assert(deletion.removes_at(c2, w2, channel, place));
    }
}

/// While the lock is held, others cannot make a live definition at the coordinate.
proof fn lemma_lock_guards_definitions<E>(
    deletion: DeletionView<E>,
    session: Session<E>,
    after: Session<E>,
)
    requires
        session.locked == Some(deletion.coordinate.definition_key()),
        session.is_disturbed_into(after),
    ensures
        deletion.is_stale(after.working) ==> deletion.is_stale(session.working),
        deletion.is_undefined(session.working) ==> deletion.is_undefined(after.working),
{
    let key = deletion.coordinate.definition_key();
    assert forall|place: int| #[trigger] after.working.live_definition(key, place) implies session
        .working.live_definition(key, place) && session.working.events[place]
        == after.working.events[place] by {
        assert(after.working.definition(key, place));
        assert(same_at(session.working.events, after.working.events, place));
    }
}

proof fn lemma_disturbance_keeps_shared_sound<E>(
    deletion: DeletionView<E>,
    session: Session<E>,
    after: Session<E>,
)
    requires
        shared_sound(deletion, session),
        session.is_disturbed_into(after),
    ensures
        shared_sound(deletion, after),
{
    lemma_disturbance_keeps_confines(deletion, session, after);
    if session.locked is Some {
        lemma_lock_guards_definitions(deletion, session, after);
    }
    if session.working.events == session.committed.events {
        lemma_equal_tables_stay_equal(
            session.committed.events,
            session.working.events,
            after.committed.events,
            after.working.events,
        );
    }
    if session.working.workflows == session.committed.workflows {
        lemma_equal_tables_stay_equal(
            session.committed.workflows,
            session.working.workflows,
            after.committed.workflows,
            after.working.workflows,
        );
    }
    assert(session.working == session.committed ==> after.working =~= after.committed);
}

proof fn lemma_shared_runs_are_sound<E>(
    run: Seq<Session<E>>,
    deletion: DeletionView<E>,
    store: Store,
    i: int,
)
    requires
        is_shared_run(run, deletion, store),
        0 <= i < run.len(),
    ensures
        shared_sound(deletion, run[i]),
    decreases i,
{
    if i > 0 {
        lemma_shared_runs_are_sound(run, deletion, store, i - 1);
        if run[i - 1].advances(run[i]) {
            let reply = choose|reply: Reply<E>| #[trigger] run[i - 1].advances_by(reply, run[i]);
            lemma_advance_keeps_shared_sound(deletion, run[i - 1], reply, run[i]);
        } else {
            assert(run[i - 1].is_disturbed_into(run[i]));
            lemma_disturbance_keeps_shared_sound(deletion, run[i - 1], run[i]);
        }
    }
}

/// No save slips in. A deletion that ends well holds the replacement lock of the
/// coordinate's definitions to the last, and what it ends with is true of the tables
/// as they are at that very moment, whatever others have done meanwhile: either it
/// has committed, and no definition at the coordinate is live, or it has not and
/// gives back nothing, and a live definition is newer than the deletion.
pub proof fn law_no_save_slips_in<E>(
    run: Seq<Session<E>>,
    deletion: DeletionView<E>,
    store: Store,
    channel: Option<u128>,
)
    requires
        is_shared_run(run, deletion, store),
        ends_with(run, Ok(channel)),
    ensures
        run.last().locked == Some(deletion.coordinate.definition_key()),
        run.last().commit_sent ==> deletion.is_undefined(run.last().committed),
        !run.last().commit_sent ==> deletion.is_stale(run.last().committed) && channel is None,
{
    lemma_shared_runs_are_sound(run, deletion, store, run.len() - 1);
}

/// Whether a definition is too new is settled when the newest one is read. From then
/// on, as long as the deletion is under way, no definition at the coordinate is newer
/// than the deletion, though others are at work.
pub proof fn law_staleness_is_settled_by_the_read<E>(
    run: Seq<Session<E>>,
    deletion: DeletionView<E>,
    store: Store,
)
    requires
        is_shared_run(run, deletion, store),
        run.last().progress is Continue,
        ({
            let stage = run.last().progress->Continue_0.stage;
            stage is DeleteWorkflow || stage is HideDefinitions || stage is Commit
        }),
    ensures
        run.last().locked == Some(deletion.coordinate.definition_key()),
        !deletion.is_stale(run.last().working),
{
    lemma_shared_runs_are_sound(run, deletion, store, run.len() - 1);
}

/// Whatever others do, an action of the deletion itself changes nothing that
/// everybody sees but what the coordinate addresses, and only its commit changes
/// anything at all.
pub proof fn law_shared_deletion_keeps_to_its_coordinate<E>(
    run: Seq<Session<E>>,
    deletion: DeletionView<E>,
    store: Store,
    i: int,
)
    requires
        is_shared_run(run, deletion, store),
        0 <= i < run.len() - 1,
        run[i].advances(run[i + 1]),
    ensures
        deletion.confines(run[i].committed, run[i + 1].committed),
        run[i + 1].committed != run[i].committed ==> run[i].progress->Continue_0.stage is Commit,
{
    lemma_shared_runs_are_sound(run, deletion, store, i);
}

/// The deletion's own changes stay apart from those of others. As long as it is under
/// way, what it sees differs from what everybody sees in nothing but what the
/// coordinate addresses.
pub proof fn law_open_deletion_differs_in_its_coordinate_only<E>(
    run: Seq<Session<E>>,
    deletion: DeletionView<E>,
    store: Store,
)
    requires
        is_shared_run(run, deletion, store),
        run.last().progress is Continue,
    ensures
        deletion.confines(run.last().committed, run.last().working),
{
    lemma_shared_runs_are_sound(run, deletion, store, run.len() - 1);
}

/// A channel that a deletion gives back is that of a workflow which the owner had up
/// to the commit and which is gone with it, whatever others have done meanwhile.
pub proof fn law_shared_deletion_returns_a_removed_channel<E>(
    run: Seq<Session<E>>,
    deletion: DeletionView<E>,
    store: Store,
    channel: u128,
)
    requires
        is_shared_run(run, deletion, store),
        ends_with(run, Ok(Some(channel))),
    ensures
        run.len() > 1,
        deletion.removes(run[run.len() - 2].committed, run.last().committed, channel),
{
    let last = run.len() - 1;
    lemma_shared_runs_are_sound(run, deletion, store, last);
    assert(run[last - 1].advances(run[last]) || run[last - 1].is_disturbed_into(run[last]));
    lemma_shared_runs_are_sound(run, deletion, store, last - 1);
}

/// A run in which others do nothing is a run among others.
pub proof fn law_undisturbed_runs_are_shared_runs<E>(
    run: Seq<Session<E>>,
    deletion: DeletionView<E>,
    store: Store,
)
    requires
        is_run(run, deletion, store),
    ensures
        is_shared_run(run, deletion, store),
{
}

/// Whatever has happened so far, the next action is on the coordinate that the
/// deletion was started with: its community, its owner, its d-tag, kind 30620 and the
/// deletion's own time.
pub proof fn law_every_action_of_a_run_is_on_the_coordinate<E>(
    run: Seq<Session<E>>,
    deletion: DeletionView<E>,
    store: Store,
)
    requires
        is_shared_run(run, deletion, store),
        run.last().progress is Continue,
    ensures
        match run.last().progress->Continue_0.action() {
            ActionView::Lock(key) => {
                &&& key.community_id == deletion.coordinate.community_id
                &&& key.kind == 30620
                &&& key.pubkey == deletion.coordinate.owner_pubkey
                &&& key.d_tag == deletion.coordinate.d_tag
            },
            ActionView::Run(StatementView::ReadHead { key }) => {
                &&& key.community_id == deletion.coordinate.community_id
                &&& key.kind == 30620
                &&& key.pubkey == deletion.coordinate.owner_pubkey
                &&& key.d_tag == deletion.coordinate.d_tag
            },
            ActionView::Run(
                StatementView::DeleteWorkflow { community_id, owner_pubkey, workflow_id, name },
            ) => {
                &&& community_id == deletion.coordinate.community_id
                &&& owner_pubkey == deletion.coordinate.owner_pubkey
                &&& workflow_id == deletion.workflow_id
                &&& name == deletion.coordinate.d_tag
            },
            ActionView::Run(StatementView::HideDefinitions { key, cutoff }) => {
                &&& key.community_id == deletion.coordinate.community_id
                &&& key.kind == 30620
                &&& key.pubkey == deletion.coordinate.owner_pubkey
                &&& key.d_tag == deletion.coordinate.d_tag
                &&& cutoff == deletion.cutoff
            },
            _ => true,
        },
{
    lemma_shared_runs_are_sound(run, deletion, store, run.len() - 1);
}

/// After a deletion has committed, whatever others did meanwhile, every event of the
/// coordinate's community, of kind 30620, by its owner and of its d-tag is marked as
/// deleted; and the lock held to the last is the one of exactly those events.
pub proof fn law_committed_deletion_leaves_no_event_of_its_own<E>(
    run: Seq<Session<E>>,
    deletion: DeletionView<E>,
    store: Store,
    channel: Option<u128>,
    place: int,
)
    requires
        is_shared_run(run, deletion, store),
        ends_with(run, Ok(channel)),
        run.last().commit_sent,
    ensures
        ({
            let coordinate = deletion.coordinate;
            let event = run.last().committed.events[place];
            run.last().committed.events.contains_key(place) && event.community_id
                == coordinate.community_id && event.kind == 30620 && event.pubkey
                == coordinate.owner_pubkey && event.d_tag == Some(coordinate.d_tag)
                ==> event.deleted_at is Some
        }),
        run.last().locked matches Some(key) && key.community_id == deletion.coordinate.community_id
            && key.kind == 30620 && key.pubkey == deletion.coordinate.owner_pubkey && key.d_tag
            == deletion.coordinate.d_tag,
{
    lemma_shared_runs_are_sound(run, deletion, store, run.len() - 1);
    assert(!run.last().committed.live_definition(deletion.coordinate.definition_key(), place));
}

/// A deletion that ended well without a commit was too old: there is an event of the
/// coordinate's community, of kind 30620, by its owner and of its d-tag that is not
/// deleted and was created later than the deletion, seconds first and then
/// nanoseconds.
pub proof fn law_uncommitted_deletion_was_too_old<E>(
    run: Seq<Session<E>>,
    deletion: DeletionView<E>,
    store: Store,
    channel: Option<u128>,
)
    requires
        is_shared_run(run, deletion, store),
        ends_with(run, Ok(channel)),
        !run.last().commit_sent,
    ensures
        channel is None,
        exists|place: int|
            {
                let event = #[trigger] run.last().committed.events[place];
                &&& run.last().committed.events.contains_key(place)
                &&& event.community_id == deletion.coordinate.community_id
                &&& event.kind == 30620
                &&& event.pubkey == deletion.coordinate.owner_pubkey
                &&& event.d_tag == Some(deletion.coordinate.d_tag)
                &&& event.deleted_at is None
                &&& event.created_at.secs * 0x1_0000_0000 + event.created_at.nanos
                    > deletion.cutoff.secs * 0x1_0000_0000 + deletion.cutoff.nanos
            },
{
    lemma_shared_runs_are_sound(run, deletion, store, run.len() - 1);
    let after = run.last().committed;
    let place = choose|place: int| #[trigger]
        after.live_definition(deletion.coordinate.definition_key(), place)
            && after.events[place].created_at.later_than(deletion.cutoff);
    let event = after.events[place];
    law_later_goes_by_seconds_first(event.created_at, deletion.cutoff);
}

/// Events of another community, of another kind, by another author or of another
/// d-tag, events that are deleted already, and events that are newer than the
/// deletion stand after each of its actions as they stood before; so do the workflows
/// of another community or another owner.
pub proof fn law_strangers_are_left_alone<E>(
    run: Seq<Session<E>>,
    deletion: DeletionView<E>,
    store: Store,
    i: int,
    place: int,
)
    requires
        is_shared_run(run, deletion, store),
        0 <= i < run.len() - 1,
        run[i].advances(run[i + 1]),
    ensures
        ({
            let coordinate = deletion.coordinate;
            let before = run[i].committed;
            let after = run[i + 1].committed;
            let event = before.events[place];
            let workflow = before.workflows[place];
            &&& before.events.contains_key(place) && (event.community_id != coordinate.community_id
                || event.kind != 30620 || event.pubkey != coordinate.owner_pubkey || event.d_tag
                != Some(coordinate.d_tag) || event.deleted_at is Some || event.created_at.secs
                * 0x1_0000_0000 + event.created_at.nanos > deletion.cutoff.secs * 0x1_0000_0000
                + deletion.cutoff.nanos) ==> after.events.contains_key(place)
                && after.events[place] == event
            &&& before.workflows.contains_key(place) && (workflow.community_id
                != coordinate.community_id || workflow.owner_pubkey != coordinate.owner_pubkey)
                ==> after.workflows.contains_key(place) && after.workflows[place] == workflow
        }),
{
    law_shared_deletion_keeps_to_its_coordinate(run, deletion, store, i);
    let before = run[i].committed;
    let after = run[i + 1].committed;
    law_later_goes_by_seconds_first(before.events[place].created_at, deletion.cutoff);
    assert(before.events.dom().contains(place) <==> after.events.dom().contains(place));
    assert(before.loses_workflow(after, place) ==> before.owned(
        deletion.coordinate.community_id,
        deletion.coordinate.owner_pubkey,
        place,
    ));
}

} // verus!
