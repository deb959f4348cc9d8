//! What holds of every workflow deletion, however its actions turn out.
use crate::deletion::{DbError, DeletionView, Reply, RowChannel, Stage, StepView};
use crate::store::{
    can_pick, deletes_picked, deletes_workflow, hides_definitions, is_run, picks, reads_head,
    reads_row, EventRow, Session, Store,
};
use crate::timestamp::Timestamp;
use vstd::prelude::*;

verus! {

impl<E> DeletionView<E> {
    /// Whether the store holds a live definition that is newer than the deletion.
    pub open spec fn is_stale(self, store: Store) -> bool {
        exists|place: int| #[trigger]
            store.live_definition(self.coordinate.definition_key(), place)
                && store.events[place].created_at.later_than(self.cutoff)
    }

    /// Whether the first half of the deletion leads from one store to another: the
    /// workflow is gone.
    pub open spec fn drops_workflow(
        self,
        before: Store,
        after: Store,
        row: Option<Option<u128>>,
    ) -> bool {
        deletes_workflow(
            before,
            after,
            self.coordinate.community_id,
            self.coordinate.owner_pubkey,
            self.workflow_id,
            self.coordinate.d_tag,
            row,
        )
    }

    /// Whether both halves of the deletion lead from one store over another to a
    /// third.
    pub open spec fn erases_over(
        self,
        before: Store,
        between: Store,
        after: Store,
        row: Option<Option<u128>>,
        now: Timestamp,
    ) -> bool {
        &&& self.drops_workflow(before, between, row)
        &&& hides_definitions(
            between,
            after,
            self.coordinate.definition_key(),
            self.cutoff,
            now,
        )
    }

    /// Whether the whole deletion leads from one store to another and gives back a
    /// channel: the workflow is gone and its definitions are hidden, and the channel
    /// is that of the workflow's row, if there was a row and it had one.
    pub open spec fn erases(self, before: Store, after: Store, channel: Option<u128>) -> bool {
        exists|between: Store, row: Option<Option<u128>>, now: Timestamp| #[trigger]
            self.erases_over(before, between, after, row, now) && channel == (match row {
                Some(channel) => channel,
                None => None,
            })
    }

    /// Whether the workflow at a place is one that the coordinate addresses: one of
    /// the owner's in the community, of the id that the d-tag spells or, where it
    /// spells none, of the d-tag's name.
    pub open spec fn addresses(self, store: Store, place: int) -> bool {
        let coordinate = self.coordinate;
        &&& store.owned(coordinate.community_id, coordinate.owner_pubkey, place)
        &&& match self.workflow_id {
            Some(id) => store.workflows[place].id == id,
            None => store.workflows[place].name == coordinate.d_tag,
        }
    }

    /// Whether two stores differ in nothing but what the deletion may change. No row
    /// is new. The events are equal, but that live definitions at the coordinate, no
    /// newer than the deletion, may be marked as deleted. The workflows are equal,
    /// but that addressed ones may be gone, and with them such of the owner's as share
    /// an id with one of those.
    pub open spec fn confines(self, before: Store, after: Store) -> bool {
        let coordinate = self.coordinate;
        &&& after.events.dom() == before.events.dom()
        &&& forall|place: int|
            before.events.contains_key(place) ==> {
                let event = #[trigger] after.events[place];
                ||| event == before.events[place]
                ||| {
                    &&& before.live_definition(coordinate.definition_key(), place)
                    &&& !before.events[place].created_at.later_than(self.cutoff)
                    &&& event == EventRow { deleted_at: event.deleted_at, ..before.events[place] }
                }
            }
        &&& forall|place: int| #[trigger]
            after.workflows.contains_key(place) ==> before.workflows.contains_key(place)
                && after.workflows[place] == before.workflows[place]
        &&& forall|place: int| #[trigger]
            before.loses_workflow(after, place) ==> {
                &&& before.owned(coordinate.community_id, coordinate.owner_pubkey, place)
                &&& exists|addressed: int| #[trigger]
                    self.addresses(before, addressed) && before.workflows[addressed].id
                        == before.workflows[place].id && !after.workflows.contains_key(addressed)
            }
    }
}

/// What holds of a session at every point of a run.
spec fn sound<E>(deletion: DeletionView<E>, before: Store, session: Session<E>) -> bool {
    let key = deletion.coordinate.definition_key();
    match session.progress {
        StepView::Continue(current) => {
            &&& current == deletion.at(current.stage)
            &&& session.committed == before
            &&& !session.commit_sent
            &&& match current.stage {
                Stage::Begin => session.working == before && session.locked is None,
                Stage::Lock => session.working == before && session.locked is None,
                Stage::ReadHead => session.working == before && session.locked == Some(key),
                Stage::DeleteWorkflow => {
                    &&& session.working == before
                    &&& session.locked == Some(key)
                    &&& !deletion.is_stale(before)
                },
                Stage::HideDefinitions { row } => {
                    &&& session.locked == Some(key)
                    &&& !deletion.is_stale(before)
                    &&& exists|stands: Option<Option<u128>>| #[trigger]
                        deletion.drops_workflow(before, session.working, stands) && reads_row(
                            row,
                            stands,
                        )
                },
                Stage::Commit { channel } => {
                    &&& session.locked == Some(key)
                    &&& !deletion.is_stale(before)
                    &&& deletion.erases(before, session.working, channel)
                },
            }
        },
        StepView::Return(result) => {
            &&& session.locked == Some(key) || (session.locked is None && session.working == before
                && session.committed == before && result is Err)
            &&& session.committed == before || session.commit_sent
            &&& deletion.is_stale(before) ==> session.working == before && !session.commit_sent
            &&& match result {
                Ok(channel) => if deletion.is_stale(before) {
                    channel is None && session.committed == before && !session.commit_sent
                } else {
                    deletion.erases(before, session.committed, channel) && session.commit_sent
                },
                Err(error) => {
                    &&& error is Database
                    &&& session.committed == before || (!deletion.is_stale(before) && exists|
                        channel: Option<u128>,
                    | #[trigger] deletion.erases(before, session.committed, channel))
                },
            }
        },
    }
}

pub(crate) proof fn lemma_head_tells_staleness<E>(
    deletion: DeletionView<E>,
    store: Store,
    head: Option<Timestamp>,
)
    requires
        reads_head(store, deletion.coordinate.definition_key(), head),
    ensures
        deletion.is_stale(store) == deletion.spares(head),
{
}

proof fn lemma_step_keeps_sound<E>(
    deletion: DeletionView<E>,
    before: Store,
    session: Session<E>,
    reply: Reply<E>,
    after: Session<E>,
)
    requires
        sound(deletion, before, session),
        session.advances_by(reply, after),
    ensures
        sound(deletion, before, after),
{
    let current = session.progress->Continue_0;
    match reply {
        Reply::Head(head) => {
            lemma_head_tells_staleness(deletion, before, head);
        },
        Reply::Deleted(row) => {
            let stands = choose|stands: Option<Option<u128>>| #[trigger]
                deletes_workflow(
                    session.working,
                    after.working,
                    current.coordinate.community_id,
                    current.coordinate.owner_pubkey,
                    current.workflow_id,
                    current.coordinate.d_tag,
                    stands,
                ) && reads_row(row, stands);
            assert(deletion.drops_workflow(before, after.working, stands));
        },
        Reply::Hidden => {
            let row = current.stage->row;
            let stands = choose|stands: Option<Option<u128>>| #[trigger]
                deletion.drops_workflow(before, session.working, stands) && reads_row(row, stands);
            let now = choose|now: Timestamp| #[trigger]
                hides_definitions(
                    session.working,
                    after.working,
                    current.coordinate.definition_key(),
                    current.cutoff,
                    now,
                );
            assert(deletion.erases_over(before, session.working, after.working, stands, now));
        },
        _ => {},
    }
}

proof fn lemma_runs_are_sound<E>(
    run: Seq<Session<E>>,
    deletion: DeletionView<E>,
    before: Store,
    i: int,
)
    requires
        is_run(run, deletion, before),
        0 <= i < run.len(),
    ensures
        sound(deletion, before, run[i]),
    decreases i,
{
    if i > 0 {
        lemma_runs_are_sound(run, deletion, before, i - 1);
        assert(run[i - 1].advances(run[i]));
        let reply = choose|reply: Reply<E>| #[trigger] run[i - 1].advances_by(reply, run[i]);
        lemma_step_keeps_sound(deletion, before, run[i - 1], reply, run[i]);
    }
}

/// Whether the result of a run is in, and which it is.
pub open spec fn ends_with<E>(
    run: Seq<Session<E>>,
    result: Result<Option<u128>, DbError<E>>,
) -> bool {
    run.last().progress == StepView::Return(result)
}

/// A deletion is atomic. At every point of its course everybody sees the tables
/// either as they were or with the whole deletion done, and they stay as they were
/// for as long as the commit has not been asked for.
pub proof fn law_deletion_is_atomic<E>(
    run: Seq<Session<E>>,
    deletion: DeletionView<E>,
    before: Store,
)
    requires
        is_run(run, deletion, before),
    ensures
        run.last().committed == before || exists|channel: Option<u128>| #[trigger]
            deletion.erases(before, run.last().committed, channel),
        !run.last().commit_sent ==> run.last().committed == before,
{
    lemma_runs_are_sound(run, deletion, before, run.len() - 1);
}

/// A deletion older than the live definition is a no-op: nothing is written, no
/// commit is asked for, and if the deletion ends well it gives back nothing.
pub proof fn law_stale_deletion_is_a_no_op<E>(
    run: Seq<Session<E>>,
    deletion: DeletionView<E>,
    before: Store,
)
    requires
        is_run(run, deletion, before),
        deletion.is_stale(before),
    ensures
        run.last().committed == before,
        run.last().working == before,
        !run.last().commit_sent,
        forall|channel: Option<u128>| ends_with(run, Ok(channel)) ==> channel is None,
{
    lemma_runs_are_sound(run, deletion, before, run.len() - 1);
}

/// What a whole deletion does to the definitions: those that it hides are gone and
/// the events that it does not address stay.
proof fn lemma_erased_definitions<E>(
    deletion: DeletionView<E>,
    before: Store,
    after: Store,
    channel: Option<u128>,
)
    requires
        deletion.erases(before, after, channel),
    ensures
        after.events.dom() == before.events.dom(),
        forall|place: int|
            before.events.contains_key(place) ==> {
                let event = #[trigger] after.events[place];
                if before.live_definition(deletion.coordinate.definition_key(), place)
                    && !before.events[place].created_at.later_than(deletion.cutoff) {
                    event == EventRow { deleted_at: event.deleted_at, ..before.events[place] }
                } else {
                    event == before.events[place]
                }
            },
        forall|place: int| #[trigger]
            after.live_definition(deletion.coordinate.definition_key(), place)
                ==> before.live_definition(deletion.coordinate.definition_key(), place)
                && before.events[place].created_at.later_than(deletion.cutoff),
{
    let (between, row, now) = choose|
        between: Store,
        row: Option<Option<u128>>,
        now: Timestamp,
    | #[trigger]
        deletion.erases_over(before, between, after, row, now) && channel == (match row {
            Some(channel) => channel,
            None => None,
        });
    let key = deletion.coordinate.definition_key();
    assert forall|place: int| #[trigger] after.live_definition(key, place) implies before
        .live_definition(key, place) && before.events[place].created_at.later_than(
        deletion.cutoff,
    ) by {
        assert(after.events.dom().contains(place));
        assert(after.events[place].deleted_at is None);
    }
}

/// What a whole deletion does to the workflows: one id was picked, and the owner's
/// rows of that id are gone, and no others.
proof fn lemma_erased_workflows<E>(
    deletion: DeletionView<E>,
    before: Store,
    after: Store,
    channel: Option<u128>,
) -> (picked: Option<u128>)
    requires
        deletion.erases(before, after, channel),
    ensures
        picks(
            before,
            deletion.coordinate.community_id,
            deletion.coordinate.owner_pubkey,
            deletion.workflow_id,
            deletion.coordinate.d_tag,
            picked,
        ),
        forall|place: int| #[trigger]
            after.workflows.contains_key(place) <==> before.workflows.contains_key(place)
                && !before.is_picked(
                deletion.coordinate.community_id,
                deletion.coordinate.owner_pubkey,
                picked,
                place,
            ),
        forall|place: int| #[trigger]
            after.workflows.contains_key(place) ==> after.workflows[place]
                == before.workflows[place],
        (exists|place: int| #[trigger]
            before.is_picked(
                deletion.coordinate.community_id,
                deletion.coordinate.owner_pubkey,
                picked,
                place,
            ) && before.workflows[place].channel_id == channel) || (channel is None && forall|
            place: int,
        |
            !#[trigger] before.is_picked(
                deletion.coordinate.community_id,
                deletion.coordinate.owner_pubkey,
                picked,
                place,
            )),
{
    let (between, row, now) = choose|
        between: Store,
        row: Option<Option<u128>>,
        now: Timestamp,
    | #[trigger]
        deletion.erases_over(before, between, after, row, now) && channel == (match row {
            Some(channel) => channel,
            None => None,
        });
    let picked = choose|picked: Option<u128>| #[trigger]
        picks(
            before,
            deletion.coordinate.community_id,
            deletion.coordinate.owner_pubkey,
            deletion.workflow_id,
            deletion.coordinate.d_tag,
            picked,
        ) && deletes_picked(
            before,
            between,
            deletion.coordinate.community_id,
            deletion.coordinate.owner_pubkey,
            picked,
            row,
        );
    picked
}

/// How the id that is picked and the addressed workflows belong together.
pub(crate) proof fn lemma_picked_and_addressed<E>(
    deletion: DeletionView<E>,
    store: Store,
    picked: Option<u128>,
)
    requires
        picks(
            store,
            deletion.coordinate.community_id,
            deletion.coordinate.owner_pubkey,
            deletion.workflow_id,
            deletion.coordinate.d_tag,
            picked,
        ),
    ensures
        (exists|place: int| #[trigger] deletion.addresses(store, place)) <==> (exists|place: int|
         #[trigger]
            store.is_picked(
                deletion.coordinate.community_id,
                deletion.coordinate.owner_pubkey,
                picked,
                place,
            )),
        (exists|place: int| #[trigger] deletion.addresses(store, place)) ==> (exists|place: int|
         #[trigger]
            deletion.addresses(store, place) && store.is_picked(
                deletion.coordinate.community_id,
                deletion.coordinate.owner_pubkey,
                picked,
                place,
            )),
        deletion.workflow_id is Some ==> picked == deletion.workflow_id,
{
    let community_id = deletion.coordinate.community_id;
    let owner_pubkey = deletion.coordinate.owner_pubkey;
    let name = deletion.coordinate.d_tag;
    match deletion.workflow_id {
        Some(id) => {
            assert(can_pick(store, community_id, owner_pubkey, deletion.workflow_id, name, id));
            assert forall|place: int| #[trigger] deletion.addresses(store, place) implies store
                .is_picked(community_id, owner_pubkey, picked, place) by {}
            assert forall|place: int| #[trigger]
                store.is_picked(community_id, owner_pubkey, picked, place) implies deletion
                .addresses(store, place) by {}
        },
        None => {
            if exists|place: int| #[trigger] deletion.addresses(store, place) {
                let named = choose|place: int| #[trigger] deletion.addresses(store, place);
                assert(store.owned(community_id, owner_pubkey, named));
                assert(can_pick(
                    store,
                    community_id,
                    owner_pubkey,
                    deletion.workflow_id,
                    name,
                    store.workflows[named].id,
                ));
                let id = picked.unwrap();
                let place = choose|place: int| #[trigger]
                    store.owned(community_id, owner_pubkey, place) && store.workflows[place].name
                        == name && store.workflows[place].id == id;
                assert(deletion.addresses(store, place));
                assert(store.is_picked(community_id, owner_pubkey, picked, place));
            }
            if exists|place: int| #[trigger]
                store.is_picked(community_id, owner_pubkey, picked, place) {
                let id = picked.unwrap();
                assert(can_pick(
                    store,
                    community_id,
                    owner_pubkey,
                    deletion.workflow_id,
                    name,
                    id,
                ));
                let place = choose|place: int| #[trigger]
                    store.owned(community_id, owner_pubkey, place) && store.workflows[place].name
                        == name && store.workflows[place].id == id;
                assert(deletion.addresses(store, place));
            }
        },
    }
}

/// A deletion that ends well, and for which no definition was too new, removes both
/// representations of the workflow. No definition at the coordinate is live any
/// more. If the d-tag spells a workflow id, no workflow is addressed by the
/// coordinate any more; if the d-tag is a name and workflows were addressed by it,
/// one of them is gone.
pub proof fn law_finished_deletion_removes_both<E>(
    run: Seq<Session<E>>,
    deletion: DeletionView<E>,
    before: Store,
    channel: Option<u128>,
)
    requires
        is_run(run, deletion, before),
        ends_with(run, Ok(channel)),
        !deletion.is_stale(before),
    ensures
        ({
            let after = run.last().committed;
            &&& deletion.erases(before, after, channel)
            &&& forall|place: int|
                !#[trigger] after.live_definition(deletion.coordinate.definition_key(), place)
            &&& deletion.workflow_id is Some ==> forall|place: int|
                !#[trigger] deletion.addresses(after, place)
            &&& (exists|place: int| #[trigger] deletion.addresses(before, place)) ==> exists|
                place: int,
            | #[trigger]
                deletion.addresses(before, place) && !after.workflows.contains_key(place)
        }),
{
    lemma_runs_are_sound(run, deletion, before, run.len() - 1);
    let after = run.last().committed;
    lemma_erased_definitions(deletion, before, after, channel);
    let picked = lemma_erased_workflows(deletion, before, after, channel);
    lemma_picked_and_addressed(deletion, before, picked);
    if deletion.workflow_id is Some {
        assert forall|place: int| !#[trigger] deletion.addresses(after, place) by {
            if after.workflows.contains_key(place) {
                assert(after.workflows[place] == before.workflows[place]);
            }
        }
    }
    if exists|place: int| #[trigger] deletion.addresses(before, place) {
        let place = choose|place: int| #[trigger]
            deletion.addresses(before, place) && before.is_picked(
                deletion.coordinate.community_id,
                deletion.coordinate.owner_pubkey,
                picked,
                place,
            );
        assert(!after.workflows.contains_key(place));
    }
}

/// A channel that a deletion gives back is that of a workflow which the owner had
/// and which is gone.
pub proof fn law_deletion_returns_a_removed_channel<E>(
    run: Seq<Session<E>>,
    deletion: DeletionView<E>,
    before: Store,
    channel: u128,
)
    requires
        is_run(run, deletion, before),
        ends_with(run, Ok(Some(channel))),
    ensures
        exists|place: int| #[trigger]
            before.owned(
                deletion.coordinate.community_id,
                deletion.coordinate.owner_pubkey,
                place,
            ) && before.workflows[place].channel_id == Some(channel)
                && !run.last().committed.workflows.contains_key(place),
{
    lemma_runs_are_sound(run, deletion, before, run.len() - 1);
    let after = run.last().committed;
    let picked = lemma_erased_workflows(deletion, before, after, Some(channel));
    let place = choose|place: int| #[trigger]
        before.is_picked(
            deletion.coordinate.community_id,
            deletion.coordinate.owner_pubkey,
            picked,
            place,
        ) && before.workflows[place].channel_id == Some(channel);
    assert(before.owned(
        deletion.coordinate.community_id,
        deletion.coordinate.owner_pubkey,
        place,
    ));
    assert(!after.workflows.contains_key(place));
}

/// Where one workflow alone is addressed, and no other of the owner's has its id, a
/// deletion that ends well gives back that workflow's channel and leaves every
/// other workflow as it was.
pub proof fn law_deletion_returns_the_workflows_channel<E>(
    run: Seq<Session<E>>,
    deletion: DeletionView<E>,
    before: Store,
    channel: Option<u128>,
    place: int,
)
    requires
        is_run(run, deletion, before),
        ends_with(run, Ok(channel)),
        !deletion.is_stale(before),
        deletion.addresses(before, place),
        forall|other: int| #[trigger] deletion.addresses(before, other) ==> other == place,
        forall|other: int| #[trigger]
            before.owned(
                deletion.coordinate.community_id,
                deletion.coordinate.owner_pubkey,
                other,
            ) && before.workflows[other].id == before.workflows[place].id ==> other == place,
    ensures
        channel == before.workflows[place].channel_id,
        run.last().committed.workflows == before.workflows.remove(place),
{
    lemma_runs_are_sound(run, deletion, before, run.len() - 1);
    let after = run.last().committed;
    let picked = lemma_erased_workflows(deletion, before, after, channel);
    lemma_picked_and_addressed(deletion, before, picked);
    let community_id = deletion.coordinate.community_id;
    let owner_pubkey = deletion.coordinate.owner_pubkey;
    assert(before.is_picked(community_id, owner_pubkey, picked, place));
    assert forall|other: int| #[trigger]
        before.is_picked(community_id, owner_pubkey, picked, other) implies other == place by {
        assert(before.owned(community_id, owner_pubkey, other));
    }
    assert forall|other: int|
        after.workflows.contains_key(other) <==> before.workflows.remove(place).contains_key(
            other,
        ) by {
        assert(before.is_picked(community_id, owner_pubkey, picked, other) <==> other == place);
    }
    assert forall|other: int| after.workflows.contains_key(other) implies after.workflows[other]
        == before.workflows.remove(place)[other] by {}
    assert(after.workflows =~= before.workflows.remove(place));
}

/// A missing workflow is tolerated: a deletion that ends well although no workflow
/// is addressed still hides the definitions that were left behind, gives back
/// nothing and leaves the workflows as they are.
pub proof fn law_missing_workflow_is_tolerated<E>(
    run: Seq<Session<E>>,
    deletion: DeletionView<E>,
    before: Store,
    channel: Option<u128>,
)
    requires
        is_run(run, deletion, before),
        ends_with(run, Ok(channel)),
        !deletion.is_stale(before),
        forall|place: int| !#[trigger] deletion.addresses(before, place),
    ensures
        channel is None,
        run.last().committed.workflows == before.workflows,
        forall|place: int|
            !#[trigger] run.last().committed.live_definition(
                deletion.coordinate.definition_key(),
                place,
            ),
{
    lemma_runs_are_sound(run, deletion, before, run.len() - 1);
    let after = run.last().committed;
    lemma_erased_definitions(deletion, before, after, channel);
    let picked = lemma_erased_workflows(deletion, before, after, channel);
    lemma_picked_and_addressed(deletion, before, picked);
    assert(after.workflows =~= before.workflows) by {
        assert forall|place: int|
            after.workflows.contains_key(place) <==> before.workflows.contains_key(place) by {
            assert(!before.is_picked(
                deletion.coordinate.community_id,
                deletion.coordinate.owner_pubkey,
                picked,
                place,
            ));
        }
    }
}

/// A deletion that failed before its commit has kept both representations as they
/// were, and the very same deletion can be replayed: it runs as if the failed one
/// had never been.
pub proof fn law_failed_deletion_can_be_replayed<E>(
    failed: Seq<Session<E>>,
    replay: Seq<Session<E>>,
    deletion: DeletionView<E>,
    before: Store,
    error: DbError<E>,
)
    requires
        is_run(failed, deletion, before),
        ends_with(failed, Err(error)),
        !failed.last().commit_sent,
        is_run(replay, deletion, failed.last().committed),
    ensures
        failed.last().committed == before,
        is_run(replay, deletion, before),
        forall|channel: Option<u128>|
            ends_with(replay, Ok(channel)) && !deletion.is_stale(before) ==> deletion.erases(
                before,
                replay.last().committed,
                channel,
            ),
{
    lemma_runs_are_sound(failed, deletion, before, failed.len() - 1);
    lemma_runs_are_sound(replay, deletion, before, replay.len() - 1);
}

/// A deletion that is repeated after it ended well, or after its commit went
/// through though the answer to it was lost, finds nothing to do: if it ends well
/// it gives back nothing and leaves the tables as they are. Of a name that several
/// of the owner's workflows bear this does not hold, for each time one of them goes.
pub proof fn law_repeated_deletion_finds_nothing<E>(
    first: Seq<Session<E>>,
    again: Seq<Session<E>>,
    deletion: DeletionView<E>,
    before: Store,
    channel: Option<u128>,
)
    requires
        is_run(first, deletion, before),
        (first.last().progress matches StepView::Return(Ok(_))) || first.last().committed != before,
        is_run(again, deletion, first.last().committed),
        ends_with(again, Ok(channel)),
        deletion.workflow_id is None ==> forall|place: int, other: int|
            #![trigger deletion.addresses(before, place), deletion.addresses(before, other)]
            deletion.addresses(before, place) && deletion.addresses(before, other) ==> place
                == other,
    ensures
        channel is None,
        again.last().committed == first.last().committed,
{
    let between = first.last().committed;
    let after = again.last().committed;
    let key = deletion.coordinate.definition_key();
    lemma_runs_are_sound(first, deletion, before, first.len() - 1);
    lemma_runs_are_sound(again, deletion, between, again.len() - 1);
    if !deletion.is_stale(before) {
        let removed = choose|channel: Option<u128>| #[trigger]
            deletion.erases(before, between, channel);
        lemma_erased_definitions(deletion, before, between, removed);
        let picked = lemma_erased_workflows(deletion, before, between, removed);
        lemma_picked_and_addressed(deletion, before, picked);
        assert forall|place: int| !#[trigger] between.live_definition(key, place) by {}
        assert forall|place: int| !#[trigger] deletion.addresses(between, place) by {
            if deletion.addresses(between, place) {
                assert(between.workflows.contains_key(place));
                assert(deletion.addresses(before, place));
                let gone = choose|gone: int| #[trigger]
                    deletion.addresses(before, gone) && before.is_picked(
                        deletion.coordinate.community_id,
                        deletion.coordinate.owner_pubkey,
                        picked,
                        gone,
                    );
                assert(!between.workflows.contains_key(gone));
            }
        }
        law_missing_workflow_is_tolerated(again, deletion, between, channel);
        lemma_erased_definitions(deletion, between, after, channel);
        assert(after.events =~= between.events);
        assert(after =~= between);
    }
}

/// A deletion touches nothing but what its coordinate addresses: at every point of
/// its course the tables differ from what they were in nothing else.
pub proof fn law_deletion_keeps_to_its_coordinate<E>(
    run: Seq<Session<E>>,
    deletion: DeletionView<E>,
    before: Store,
)
    requires
        is_run(run, deletion, before),
    ensures
        deletion.confines(before, run.last().committed),
{
    lemma_runs_are_sound(run, deletion, before, run.len() - 1);
    let after = run.last().committed;
    if after != before {
        let channel = choose|channel: Option<u128>| #[trigger]
            deletion.erases(before, after, channel);
        lemma_erased_definitions(deletion, before, after, channel);
        let picked = lemma_erased_workflows(deletion, before, after, channel);
        lemma_picked_and_addressed(deletion, before, picked);
        let community_id = deletion.coordinate.community_id;
        let owner_pubkey = deletion.coordinate.owner_pubkey;
        assert forall|place: int| #[trigger] before.loses_workflow(after, place) implies before.owned(
            community_id,
            owner_pubkey,
            place,
        ) && exists|addressed: int| #[trigger]
            deletion.addresses(before, addressed) && before.workflows[addressed].id
                == before.workflows[place].id && !after.workflows.contains_key(addressed) by {
            assert(before.is_picked(community_id, owner_pubkey, picked, place));
            let addressed = choose|addressed: int| #[trigger]
                deletion.addresses(before, addressed) && before.is_picked(
                    community_id,
                    owner_pubkey,
                    picked,
                    addressed,
                );
            assert(!after.workflows.contains_key(addressed));
        }
    }
}

/// The lock under which definitions are replaced comes first: whoever has got
/// beyond it, or has written anything, holds the lock of the coordinate's
/// definitions.
pub proof fn law_deletion_locks_first<E>(
    run: Seq<Session<E>>,
    deletion: DeletionView<E>,
    before: Store,
)
    requires
        is_run(run, deletion, before),
    ensures
        ({
            let session = run.last();
            let key = deletion.coordinate.definition_key();
            &&& session.working != before || session.committed != before ==> session.locked == Some(
                key,
            )
            &&& session.progress matches StepView::Continue(current) ==> current.stage is Begin
                || current.stage is Lock || session.locked == Some(key)
            &&& session.progress matches StepView::Return(Ok(_)) ==> session.locked == Some(key)
        }),
{
    lemma_runs_are_sound(run, deletion, before, run.len() - 1);
}

/// A deletion only fails for a reason that the database gave: an action failed with
/// that very error, or the deleted row could not be read for it.
pub proof fn law_errors_come_from_the_database<E>(
    deletion: DeletionView<E>,
    reply: Reply<E>,
    error: DbError<E>,
)
    requires
        deletion.awaits(reply),
        deletion.next(reply) == StepView::<E>::Return(Err(error)),
    ensures
        error is Database,
        reply == Reply::Failed(error->Database_0) || deletion.stage == (Stage::HideDefinitions {
            row: Some(RowChannel::<E>::Err(error->Database_0)),
        }),
{
}

/// Whether a reply is one that makes a deletion fail: the action failed, or the
/// deleted row cannot be read.
pub open spec fn is_fault<E>(reply: Reply<E>) -> bool {
    reply is Failed || reply matches Reply::Deleted(Some(Err(_)))
}

/// Whether a session goes over into another one by a reply that is no fault.
pub open spec fn advances_undisturbed<E>(session: Session<E>, after: Session<E>) -> bool {
    exists|reply: Reply<E>| !is_fault(reply) && #[trigger] session.advances_by(reply, after)
}

/// A deletion that meets no fault does not fail: if it is at its end, it has ended
/// well. It has then left everything as it was and gives back nothing, if a live
/// definition was newer; otherwise the whole deletion is done.
pub proof fn law_undisturbed_deletion_ends_well<E>(
    run: Seq<Session<E>>,
    deletion: DeletionView<E>,
    before: Store,
)
    requires
        is_run(run, deletion, before),
        forall|i: int, j: int|
            0 <= i < run.len() - 1 && j == i + 1 ==> #[trigger] advances_undisturbed(
                run[i],
                run[j],
            ),
        run.last().progress is Return,
    ensures
        run.last().progress matches StepView::Return(Ok(channel)) && if deletion.is_stale(before) {
            channel is None && run.last().committed == before
        } else {
            deletion.erases(before, run.last().committed, channel)
        },
{
    lemma_undisturbed(run, deletion, before, run.len() - 1);
    lemma_runs_are_sound(run, deletion, before, run.len() - 1);
}

proof fn lemma_undisturbed<E>(
    run: Seq<Session<E>>,
    deletion: DeletionView<E>,
    before: Store,
    i: int,
)
    requires
        is_run(run, deletion, before),
        forall|i: int, j: int|
            0 <= i < run.len() - 1 && j == i + 1 ==> #[trigger] advances_undisturbed(
                run[i],
                run[j],
            ),
        0 <= i < run.len(),
    ensures
        match run[i].progress {
            StepView::Continue(current) => !(current.stage matches Stage::HideDefinitions {
                row: Some(Err(_)),
            }),
            StepView::Return(result) => result is Ok,
        },
    decreases i,
{
    if i > 0 {
        lemma_undisturbed(run, deletion, before, i - 1);
        assert(advances_undisturbed(run[i - 1], run[i]));
    }
}

/// A deletion that failed met the fault that it reports: at some point of its course
/// an action failed with that very error, or the deleted row could not be read for
/// it.
pub proof fn law_failed_deletion_met_its_fault<E>(
    run: Seq<Session<E>>,
    deletion: DeletionView<E>,
    before: Store,
    error: DbError<E>,
)
    requires
        is_run(run, deletion, before),
        ends_with(run, Err(error)),
    ensures
        error matches DbError::Database(fault) && exists|i: int, reply: Reply<E>|
            0 <= i < run.len() - 1 && #[trigger] run[i].advances_by(reply, run[i + 1]) && (reply
                == Reply::Failed(fault) || reply == Reply::Deleted(Some(RowChannel::<E>::Err(fault)))),
{
    let last = run.len() - 1;
    lemma_runs_are_sound(run, deletion, before, last);
    let fault = error->Database_0;
    assert(run[last - 1].advances(run[last]));
    let reply = choose|reply: Reply<E>| #[trigger] run[last - 1].advances_by(reply, run[last]);
    let current = run[last - 1].progress->Continue_0;
    law_errors_come_from_the_database(current, reply, error);
    if reply == Reply::Failed(fault) {
        assert(run[last - 1].advances_by(reply, run[last - 1 + 1]));
    } else {
        assert(run[last - 2].advances(run[last - 1]));
        let earlier = choose|earlier: Reply<E>| #[trigger]
            run[last - 2].advances_by(earlier, run[last - 1]);
        assert(earlier == Reply::Deleted(Some(RowChannel::<E>::Err(fault))));
        assert(run[last - 2].advances_by(earlier, run[last - 2 + 1]));
    }
}

/// How many actions a deletion at most still takes.
pub open spec fn actions_left<E>(progress: StepView<E>) -> nat {
    match progress {
        StepView::Continue(deletion) => match deletion.stage {
            Stage::Begin => 6,
            Stage::Lock => 5,
            Stage::ReadHead => 4,
            Stage::DeleteWorkflow => 3,
            Stage::HideDefinitions { .. } => 2,
            Stage::Commit { .. } => 1,
        },
        StepView::Return(_) => 0,
    }
}

/// A deletion ends: every reply leaves it with fewer actions to take, so that six
/// actions are all that it ever takes.
pub proof fn law_deletion_ends<E>(run: Seq<Session<E>>, deletion: DeletionView<E>, before: Store)
    requires
        is_run(run, deletion, before),
    ensures
        run.len() - 1 + actions_left(run.last().progress) <= 6,
    decreases run.len(),
{
    if run.len() > 1 {
        let shorter = run.drop_last();
        assert(shorter.last().advances(run.last())) by {
            assert(run[run.len() - 2].advances(run[run.len() - 1]));
        }
        assert forall|i: int, j: int|
            0 <= i < shorter.len() - 1 && j == i + 1 implies #[trigger] shorter[i].advances(
            shorter[j],
        ) by {
            assert(run[i].advances(run[j]));
        }
        law_deletion_ends(shorter, deletion, before);
    }
}

} // verus!
