//! A model of the two tables that a workflow deletion works on, and of what its
//! actions do to them.
//!
//! A [`Session`] is one deletion and the store that it runs against. In a run by
//! [`is_run`] nobody else writes to the store meanwhile; in one by
//! [`is_shared_run`] other transactions do.
use crate::deletion::{ActionView, DeletionView, Reply, RowChannel, StepView};
use crate::statement::{DefinitionKeyView, StatementView};
use crate::timestamp::Timestamp;
use vstd::prelude::*;

verus! {

/// A row of `workflows`.
pub struct WorkflowRow {
    pub community_id: u128,
    pub owner_pubkey: Seq<u8>,
    pub id: u128,
    pub name: Seq<char>,
    pub channel_id: Option<u128>,
}

/// A row of `events`.
pub struct EventRow {
    pub community_id: u128,
    pub kind: i32,
    pub pubkey: Seq<u8>,
    pub d_tag: Option<Seq<char>>,
    pub created_at: Timestamp,
    pub deleted_at: Option<Timestamp>,
}

/// The two tables. A row's place in its table tells it from equal rows.
#[verifier::ext_equal]
pub struct Store {
    pub workflows: Map<int, WorkflowRow>,
    pub events: Map<int, EventRow>,
}

impl Store {
    /// Whether a definition of the key stands at a place, deleted or not.
    pub open spec fn definition(self, key: DefinitionKeyView, place: int) -> bool {
        let event = self.events[place];
        &&& self.events.contains_key(place)
        &&& event.community_id == key.community_id
        &&& event.kind == key.kind
        &&& event.pubkey == key.pubkey
        &&& event.d_tag == Some(key.d_tag)
    }

    /// Whether a definition of the key that is not deleted stands at a place.
    pub open spec fn live_definition(self, key: DefinitionKeyView, place: int) -> bool {
        self.definition(key, place) && self.events[place].deleted_at is None
    }

    /// Whether the workflow at a place is gone in a later store.
    pub open spec fn loses_workflow(self, later: Store, place: int) -> bool {
        self.workflows.contains_key(place) && !later.workflows.contains_key(place)
    }

    /// Whether a workflow of the owner in the community stands at a place.
    pub open spec fn owned(self, community_id: u128, owner_pubkey: Seq<u8>, place: int) -> bool {
        &&& self.workflows.contains_key(place)
        &&& self.workflows[place].community_id == community_id
        &&& self.workflows[place].owner_pubkey == owner_pubkey
    }
}

/// What the newest live definition of a key comes to: its creation time, which no
/// other live definition of the key exceeds, or `None` where there is no live one.
pub open spec fn reads_head(
    store: Store,
    key: DefinitionKeyView,
    head: Option<Timestamp>,
) -> bool {
    match head {
        None => forall|place: int| !#[trigger] store.live_definition(key, place),
        Some(newest) => {
            &&& exists|place: int| #[trigger]
                store.live_definition(key, place) && store.events[place].created_at == newest
            &&& forall|place: int| #[trigger]
                store.live_definition(key, place) ==> !store.events[place].created_at.later_than(
                    newest,
                )
        },
    }
}

/// Whether an id is one by which the owner's workflow to delete can be picked: the
/// id that is given or, where none is, that of a workflow of the given name.
pub open spec fn can_pick(
    store: Store,
    community_id: u128,
    owner_pubkey: Seq<u8>,
    workflow_id: Option<u128>,
    name: Seq<char>,
    id: u128,
) -> bool {
    match workflow_id {
        Some(given) => id == given,
        None => exists|place: int| #[trigger]
            store.owned(community_id, owner_pubkey, place) && store.workflows[place].name == name
                && store.workflows[place].id == id,
    }
}

/// Whether an id, or none for want of one, is what is picked.
pub open spec fn picks(
    store: Store,
    community_id: u128,
    owner_pubkey: Seq<u8>,
    workflow_id: Option<u128>,
    name: Seq<char>,
    picked: Option<u128>,
) -> bool {
    match picked {
        Some(id) => can_pick(store, community_id, owner_pubkey, workflow_id, name, id),
        None => forall|id: u128|
            !#[trigger] can_pick(store, community_id, owner_pubkey, workflow_id, name, id),
    }
}

impl Store {
    /// Whether the owner's workflow of the picked id stands at a place.
    pub open spec fn is_picked(
        self,
        community_id: u128,
        owner_pubkey: Seq<u8>,
        picked: Option<u128>,
        place: int,
    ) -> bool {
        self.owned(community_id, owner_pubkey, place) && picked == Some(self.workflows[place].id)
    }
}

/// Deletes the owner's workflow of the picked id, if there is one. The row that
/// comes back is a deleted one, given by its channel.
pub open spec fn deletes_picked(
    before: Store,
    after: Store,
    community_id: u128,
    owner_pubkey: Seq<u8>,
    picked: Option<u128>,
    row: Option<Option<u128>>,
) -> bool {
    &&& after.events == before.events
    &&& forall|place: int| #[trigger]
        after.workflows.contains_key(place) <==> before.workflows.contains_key(place)
            && !before.is_picked(community_id, owner_pubkey, picked, place)
    &&& forall|place: int| #[trigger]
        after.workflows.contains_key(place) ==> after.workflows[place] == before.workflows[place]
    &&& match row {
        None => forall|place: int|
            !#[trigger] before.is_picked(community_id, owner_pubkey, picked, place),
        Some(channel) => exists|place: int| #[trigger]
            before.is_picked(community_id, owner_pubkey, picked, place)
                && before.workflows[place].channel_id == channel,
    }
}

/// Deletes the owner's workflow of the given id or, where none is given, a
/// workflow of the given name. Which one, if several bear the name, is open.
pub open spec fn deletes_workflow(
    before: Store,
    after: Store,
    community_id: u128,
    owner_pubkey: Seq<u8>,
    workflow_id: Option<u128>,
    name: Seq<char>,
    row: Option<Option<u128>>,
) -> bool {
    exists|picked: Option<u128>| #[trigger]
        picks(before, community_id, owner_pubkey, workflow_id, name, picked) && deletes_picked(
            before,
            after,
            community_id,
            owner_pubkey,
            picked,
            row,
        )
}

/// Marks the live definitions of the key as deleted that are no newer than the
/// cutoff, all at one time, and changes nothing else.
pub open spec fn hides_definitions(
    before: Store,
    after: Store,
    key: DefinitionKeyView,
    cutoff: Timestamp,
    now: Timestamp,
) -> bool {
    &&& after.workflows == before.workflows
    &&& after.events.dom() == before.events.dom()
    &&& forall|place: int|
        #![trigger after.events[place]]
        before.events.contains_key(place) ==> after.events[place] == if before.live_definition(
            key,
            place,
        ) && !before.events[place].created_at.later_than(cutoff) {
            EventRow { deleted_at: Some(now), ..before.events[place] }
        } else {
            before.events[place]
        }
}

/// Whether a row was read back as it stands: a readable one shows its channel.
pub open spec fn reads_row<E>(row: Option<RowChannel<E>>, stands: Option<Option<u128>>) -> bool {
    match row {
        None => stands is None,
        Some(Ok(channel)) => stands == Some(channel),
        Some(Err(_)) => stands is Some,
    }
}

/// What a statement does and answers when the database does not fail it.
pub open spec fn runs<E>(
    statement: StatementView,
    before: Store,
    after: Store,
    reply: Reply<E>,
) -> bool {
    match statement {
        StatementView::ReadHead { key } => {
            &&& reply is Head
            &&& after == before
            &&& reads_head(before, key, reply->Head_0)
        },
        StatementView::DeleteWorkflow { community_id, owner_pubkey, workflow_id, name } => {
            &&& reply is Deleted
            &&& exists|stands: Option<Option<u128>>| #[trigger]
                deletes_workflow(
                    before,
                    after,
                    community_id,
                    owner_pubkey,
                    workflow_id,
                    name,
                    stands,
                ) && reads_row(reply->Deleted_0, stands)
        },
        StatementView::HideDefinitions { key, cutoff } => {
            &&& reply is Hidden
            &&& exists|now: Timestamp| #[trigger]
                hides_definitions(before, after, key, cutoff, now)
        },
    }
}

/// A deletion and the store that it runs against.
pub struct Session<E> {
    /// How far the deletion has come.
    pub progress: StepView<E>,
    /// The tables as everybody sees them.
    pub committed: Store,
    /// The tables as the open transaction sees them.
    pub working: Store,
    /// The key that the transaction holds the replacement lock of.
    pub locked: Option<DefinitionKeyView>,
    /// Whether the commit was asked for.
    pub commit_sent: bool,
}

impl<E> Session<E> {
    /// A deletion of which nothing has been done, before a store.
    pub open spec fn opened(deletion: DeletionView<E>, store: Store) -> Session<E> {
        Session {
            progress: StepView::Continue(deletion),
            committed: store,
            working: store,
            locked: None,
            commit_sent: false,
        }
    }

    /// What an action does to the session when it gets a reply. A failed action
    /// changes nothing, but for a commit: of that it may be that only the answer
    /// was lost.
    pub open spec fn performs(self, action: ActionView, reply: Reply<E>, after: Session<E>) -> bool {
        match reply {
            Reply::Failed(_) => {
                &&& after.working == self.working
                &&& after.locked == self.locked
                &&& after.commit_sent == (self.commit_sent || action is Commit)
                &&& after.committed == self.committed || (action is Commit && after.committed
                    == self.working)
            },
            _ => match action {
                ActionView::Begin => {
                    &&& after.working == self.committed
                    &&& after.committed == self.committed
                    &&& after.locked == self.locked
                    &&& after.commit_sent == self.commit_sent
                },
                ActionView::Lock(key) => {
                    &&& after.working == self.working
                    &&& after.committed == self.committed
                    &&& after.locked == Some(key)
                    &&& after.commit_sent == self.commit_sent
                },
                ActionView::Run(statement) => {
                    &&& runs(statement, self.working, after.working, reply)
                    &&& after.committed == self.committed
                    &&& after.locked == self.locked
                    &&& after.commit_sent == self.commit_sent
                },
                ActionView::Commit => {
                    &&& after.working == self.working
                    &&& after.committed == self.working
                    &&& after.locked == self.locked
                    &&& after.commit_sent
                },
            },
        }
    }

    /// Whether the session goes over into another one by a given reply.
    pub open spec fn advances_by(self, reply: Reply<E>, after: Session<E>) -> bool {
        match self.progress {
            StepView::Continue(deletion) => {
                &&& deletion.awaits(reply)
                &&& self.performs(deletion.action(), reply, after)
                &&& after.progress == deletion.next(reply)
            },
            StepView::Return(_) => false,
        }
    }

    pub open spec fn advances(self, after: Session<E>) -> bool {
        exists|reply: Reply<E>| #[trigger] self.advances_by(reply, after)
    }
}

/// Whether sessions are the course that a deletion takes, from its start before a
/// store up to some point.
pub open spec fn is_run<E>(
    run: Seq<Session<E>>,
    deletion: DeletionView<E>,
    store: Store,
) -> bool {
    &&& deletion.stage is Begin
    &&& run.len() > 0
    &&& run[0] == Session::opened(deletion, store)
    &&& forall|i: int, j: int|
        0 <= i < run.len() - 1 && j == i + 1 ==> #[trigger] run[i].advances(run[j])
}

/// Whether two tables have the same at a place: equal rows, or none.
pub open spec fn same_at<R>(one: Map<int, R>, other: Map<int, R>, place: int) -> bool {
    &&& one.contains_key(place) <==> other.contains_key(place)
    &&& one.contains_key(place) ==> one[place] == other[place]
}

/// What other transactions may do at a place of a table while one is open. A row
/// that the open transaction has written stays as it is, to everybody and to that
/// transaction. Any other row may change, come or go, and all see it alike.
pub open spec fn others_change_row<R>(
    committed: Map<int, R>,
    working: Map<int, R>,
    committed_after: Map<int, R>,
    working_after: Map<int, R>,
    place: int,
) -> bool {
    if same_at(committed, working, place) {
        same_at(committed_after, working_after, place)
    } else {
        same_at(committed, committed_after, place) && same_at(working, working_after, place)
    }
}

impl<E> Session<E> {
    /// Whether other transactions, between two actions of the deletion, lead the
    /// session over into another one. They leave the definitions of a key alone
    /// whose replacement lock the deletion holds.
    pub open spec fn is_disturbed_into(self, after: Session<E>) -> bool {
        &&& self.progress is Continue
        &&& after.progress == self.progress
        &&& after.locked == self.locked
        &&& after.commit_sent == self.commit_sent
        &&& forall|place: int| #[trigger]
            others_change_row(
                self.committed.workflows,
                self.working.workflows,
                after.committed.workflows,
                after.working.workflows,
                place,
            )
        &&& forall|place: int| #[trigger]
            others_change_row(
                self.committed.events,
                self.working.events,
                after.committed.events,
                after.working.events,
                place,
            )
        &&& self.locked matches Some(key) ==> forall|place: int|
            self.working.definition(key, place) || after.working.definition(key, place)
                ==> #[trigger] same_at(self.working.events, after.working.events, place)
    }
}

/// Whether sessions are the course that a deletion takes, from its start before a
/// store up to some point, with other transactions at work between its actions.
pub open spec fn is_shared_run<E>(
    run: Seq<Session<E>>,
    deletion: DeletionView<E>,
    store: Store,
) -> bool {
    &&& deletion.stage is Begin
    &&& run.len() > 0
    &&& run[0] == Session::opened(deletion, store)
    &&& forall|i: int, j: int|
        #![trigger run[i].advances(run[j])]
        #![trigger run[i].is_disturbed_into(run[j])]
        0 <= i < run.len() - 1 && j == i + 1 ==> run[i].advances(run[j])
            || run[i].is_disturbed_into(run[j])
}

} // verus!
