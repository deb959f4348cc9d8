//! Deleting a workflow together with its definition.
//!
//! The executable workflow is a row of `workflows`; what clients see of it is a
//! definition event. Both go in one transaction, which
//! [`Db::delete_workflow_by_coordinate`] sets up and [`WorkflowDeletion`] leads
//! through.
use crate::identity::CommunityId;
use crate::statement::{
    DefinitionKey, DefinitionKeyView, Statement, StatementView, KIND_WORKFLOW_DEF,
};
use crate::timestamp::{utc_second, Timestamp};
use crate::workflow_id::{has_uuid_length, uuid_from_text, workflow_id};
use vstd::prelude::*;
use vstd::slice::slice_to_vec;

verus! {

/// Why an operation of the store failed. `E` is the database driver's error.
#[derive(Debug, PartialEq, Eq)]
pub enum DbError<E> {
    /// No instant is known for this number of seconds.
    InvalidTimestamp(i64),
    Database(E),
}

/// The address of a workflow: its community, its owner, and the d-tag of its
/// definition.
#[derive(Debug)]
pub struct Coordinate {
    pub community_id: CommunityId,
    pub owner_pubkey: Vec<u8>,
    pub d_tag: String,
}

/// What a [`Coordinate`] stands for.
pub struct CoordinateView {
    pub community_id: u128,
    pub owner_pubkey: Seq<u8>,
    pub d_tag: Seq<char>,
}

impl View for Coordinate {
    type V = CoordinateView;

    open spec fn view(&self) -> CoordinateView {
        CoordinateView {
            community_id: self.community_id@,
            owner_pubkey: self.owner_pubkey@,
            d_tag: self.d_tag@,
        }
    }
}

impl CoordinateView {
    /// What the definitions at the coordinate share.
    pub open spec fn definition_key(self) -> DefinitionKeyView {
        DefinitionKeyView {
            community_id: self.community_id,
            kind: KIND_WORKFLOW_DEF,
            pubkey: self.owner_pubkey,
            d_tag: self.d_tag,
        }
    }
}

/// The channel of a deleted workflow's row: what stands in the column, which may
/// be nothing, or the error on reading it.
pub type RowChannel<E> = Result<Option<u128>, E>;

/// How far a deletion has come, by the action that it waits for.
#[derive(Debug)]
pub enum Stage<E> {
    Begin,
    Lock,
    ReadHead,
    DeleteWorkflow,
    /// Holds the row that the workflow's deletion gave back, if there was one.
    HideDefinitions { row: Option<RowChannel<E>> },
    /// Holds the channel to return.
    Commit { channel: Option<u128> },
}

/// A deletion under way.
#[derive(Debug)]
pub struct WorkflowDeletion<E> {
    coordinate: Coordinate,
    cutoff: Timestamp,
    workflow_id: Option<u128>,
    stage: Stage<E>,
}

/// What a [`WorkflowDeletion`] stands for.
pub struct DeletionView<E> {
    pub coordinate: CoordinateView,
    /// The deletion's own creation time.
    pub cutoff: Timestamp,
    /// The workflow's id, where the d-tag spells one.
    pub workflow_id: Option<u128>,
    pub stage: Stage<E>,
}

impl<E> View for WorkflowDeletion<E> {
    type V = DeletionView<E>;

    closed spec fn view(&self) -> DeletionView<E> {
        DeletionView {
            coordinate: self.coordinate@,
            cutoff: self.cutoff,
            workflow_id: self.workflow_id,
            stage: self.stage,
        }
    }
}

/// The one thing that a deletion wants done next.
#[derive(Debug)]
pub enum Action {
    /// Open a transaction. All that follows happens in it.
    Begin,
    /// Take the advisory lock under which definitions of this key are replaced.
    Lock(DefinitionKey),
    Run(Statement),
    Commit,
}

/// What an [`Action`] stands for.
pub enum ActionView {
    Begin,
    Lock(DefinitionKeyView),
    Run(StatementView),
    Commit,
}

impl View for Action {
    type V = ActionView;

    open spec fn view(&self) -> ActionView {
        match self {
            Action::Begin => ActionView::Begin,
            Action::Lock(key) => ActionView::Lock(key@),
            Action::Run(statement) => ActionView::Run(statement@),
            Action::Commit => ActionView::Commit,
        }
    }
}

/// How an action turned out.
#[derive(Debug)]
pub enum Reply<E> {
    Begun,
    Locked,
    /// When the newest live definition was created, if there is one.
    Head(Option<Timestamp>),
    /// The row of the deleted workflow, if one was deleted.
    Deleted(Option<RowChannel<E>>),
    Hidden,
    Committed,
    /// The database failed the action.
    Failed(E),
}

/// Where a reply leads.
#[derive(Debug)]
pub enum Step<E> {
    /// On to the next action.
    Continue(WorkflowDeletion<E>),
    /// To the end. A transaction that is still open is to be given up.
    Return(Result<Option<u128>, DbError<E>>),
}

/// What a [`Step`] stands for.
pub enum StepView<E> {
    Continue(DeletionView<E>),
    Return(Result<Option<u128>, DbError<E>>),
}

impl<E> View for Step<E> {
    type V = StepView<E>;

    open spec fn view(&self) -> StepView<E> {
        match self {
            Step::Continue(deletion) => StepView::Continue(deletion@),
            Step::Return(result) => StepView::Return(*result),
        }
    }
}

impl<E> DeletionView<E> {
    /// A deletion that nothing has been done for yet.
    pub open spec fn start(
        coordinate: CoordinateView,
        cutoff: Timestamp,
        workflow_id: Option<u128>,
    ) -> DeletionView<E> {
        DeletionView { coordinate, cutoff, workflow_id, stage: Stage::Begin }
    }

    pub open spec fn at(self, stage: Stage<E>) -> DeletionView<E> {
        DeletionView { stage, ..self }
    }

    /// The action that the deletion waits for.
    pub open spec fn action(self) -> ActionView {
        let key = self.coordinate.definition_key();
        match self.stage {
            Stage::Begin => ActionView::Begin,
            Stage::Lock => ActionView::Lock(key),
            Stage::ReadHead => ActionView::Run(StatementView::ReadHead { key }),
            Stage::DeleteWorkflow => ActionView::Run(
                StatementView::DeleteWorkflow {
                    community_id: self.coordinate.community_id,
                    owner_pubkey: self.coordinate.owner_pubkey,
                    workflow_id: self.workflow_id,
                    name: self.coordinate.d_tag,
                },
            ),
            Stage::HideDefinitions { .. } => ActionView::Run(
                StatementView::HideDefinitions { key, cutoff: self.cutoff },
            ),
            Stage::Commit { .. } => ActionView::Commit,
        }
    }

    /// Whether a reply is one that the awaited action can have.
    pub open spec fn awaits(self, reply: Reply<E>) -> bool {
        match reply {
            Reply::Begun => self.stage is Begin,
            Reply::Locked => self.stage is Lock,
            Reply::Head(_) => self.stage is ReadHead,
            Reply::Deleted(_) => self.stage is DeleteWorkflow,
            Reply::Hidden => self.stage is HideDefinitions,
            Reply::Committed => self.stage is Commit,
            Reply::Failed(_) => true,
        }
    }

    /// Whether a definition of this age is too new for the deletion to touch.
    pub open spec fn spares(self, head: Option<Timestamp>) -> bool {
        head matches Some(created_at) && created_at.later_than(self.cutoff)
    }

    /// Where a reply leads.
    pub open spec fn next(self, reply: Reply<E>) -> StepView<E> {
        match reply {
            Reply::Begun => StepView::Continue(self.at(Stage::Lock)),
            Reply::Locked => StepView::Continue(self.at(Stage::ReadHead)),
            Reply::Head(head) => if self.spares(head) {
                StepView::Return(Ok(None))
            } else {
                StepView::Continue(self.at(Stage::DeleteWorkflow))
            },
            Reply::Deleted(row) => StepView::Continue(self.at(Stage::HideDefinitions { row })),
            Reply::Hidden => match self.stage->row {
                None => StepView::Continue(self.at(Stage::Commit { channel: None })),
                Some(Ok(channel)) => StepView::Continue(self.at(Stage::Commit { channel })),
                Some(Err(error)) => StepView::Return(Err(DbError::Database(error))),
            },
            Reply::Committed => StepView::Return(Ok(self.stage->channel)),
            Reply::Failed(error) => StepView::Return(Err(DbError::Database(error))),
        }
    }
}

impl<E> WorkflowDeletion<E> {
    /// Starts the deletion of the workflow at a coordinate, for a d-tag of which it
    /// is known what workflow id it spells.
    pub fn start(coordinate: Coordinate, cutoff: Timestamp, workflow_id: Option<u128>) -> (deletion:
        WorkflowDeletion<E>)
        ensures
            deletion@ == DeletionView::<E>::start(coordinate@, cutoff, workflow_id),
            deletion@.coordinate.community_id == coordinate.community_id@,
            deletion@.coordinate.owner_pubkey == coordinate.owner_pubkey@,
            deletion@.coordinate.d_tag == coordinate.d_tag@,
            deletion@.cutoff == cutoff,
            deletion@.workflow_id == workflow_id,
            deletion@.stage is Begin,
    {
        WorkflowDeletion { coordinate, cutoff, workflow_id, stage: Stage::Begin }
    }

    fn definition_key(&self) -> (key: DefinitionKey)
        ensures
            key@ == self@.coordinate.definition_key(),
            key.community_id@ == self@.coordinate.community_id,
            key.kind == 30620,
            key.pubkey@ == self@.coordinate.owner_pubkey,
            key.d_tag@ == self@.coordinate.d_tag,
    {
        DefinitionKey {
            community_id: self.coordinate.community_id,
            kind: KIND_WORKFLOW_DEF,
            pubkey: slice_to_vec(self.coordinate.owner_pubkey.as_slice()),
            d_tag: self.coordinate.d_tag.clone(),
        }
    }

    /// What is to be done next.
    pub fn action(&self) -> (action: Action)
        ensures
            action@ == self@.action(),
            self@.stage is Begin <==> action is Begin,
            self@.stage is Lock ==> (action matches Action::Lock(key) && key.community_id@ == self@.coordinate.community_id && key.kind == 30620
                && key.pubkey@ == self@.coordinate.owner_pubkey && key.d_tag@
                == self@.coordinate.d_tag),
            self@.stage is ReadHead ==> (action matches Action::Run(Statement::ReadHead { key }) && key.community_id@ == self@.coordinate.community_id && key.kind == 30620
                && key.pubkey@ == self@.coordinate.owner_pubkey && key.d_tag@
                == self@.coordinate.d_tag),
            self@.stage is DeleteWorkflow ==> (action matches Action::Run(
                Statement::DeleteWorkflow { community_id, owner_pubkey, workflow_id, name },
            ) && community_id@ == self@.coordinate.community_id && owner_pubkey@
                == self@.coordinate.owner_pubkey && workflow_id == self@.workflow_id && name@
                == self@.coordinate.d_tag),
            self@.stage is HideDefinitions ==> (action matches Action::Run(
                Statement::HideDefinitions { key, cutoff },
            ) && key.community_id@ == self@.coordinate.community_id && key.kind == 30620
                && key.pubkey@ == self@.coordinate.owner_pubkey && key.d_tag@
                == self@.coordinate.d_tag && cutoff == self@.cutoff),
            self@.stage is Commit <==> action is Commit,
    {
        match &self.stage {
            Stage::Begin => Action::Begin,
            Stage::Lock => Action::Lock(self.definition_key()),
            Stage::ReadHead => Action::Run(Statement::ReadHead { key: self.definition_key() }),
            Stage::DeleteWorkflow => Action::Run(
                Statement::DeleteWorkflow {
                    community_id: self.coordinate.community_id,
                    owner_pubkey: slice_to_vec(self.coordinate.owner_pubkey.as_slice()),
                    workflow_id: self.workflow_id,
                    name: self.coordinate.d_tag.clone(),
                },
            ),
            Stage::HideDefinitions { .. } => Action::Run(
                Statement::HideDefinitions { key: self.definition_key(), cutoff: self.cutoff },
            ),
            Stage::Commit { .. } => Action::Commit,
        }
    }

    /// Whether a reply is one that the awaited action can have.
    pub fn awaits(&self, reply: &Reply<E>) -> (fits: bool)
        ensures
            fits == self@.awaits(*reply),
    {
        match (reply, &self.stage) {
            (Reply::Begun, Stage::Begin) => true,
            (Reply::Locked, Stage::Lock) => true,
            (Reply::Head(_), Stage::ReadHead) => true,
            (Reply::Deleted(_), Stage::DeleteWorkflow) => true,
            (Reply::Hidden, Stage::HideDefinitions { .. }) => true,
            (Reply::Committed, Stage::Commit { .. }) => true,
            (Reply::Failed(_), _) => true,
            _ => false,
        }
    }

    /// Takes the reply to the awaited action and says where it leads.
    ///
    /// A definition newer than the deletion ends it at once, with nothing changed.
    /// A workflow that is not there is no obstacle: its definition may have been
    /// left behind and still has to go. Every failure ends the deletion before the
    /// commit, or with it.
    pub fn resume(self, reply: Reply<E>) -> (step: Step<E>)
        requires
            self@.awaits(reply),
        ensures
            step@ == self@.next(reply),
            step matches Step::Continue(next) ==> next@.coordinate == self@.coordinate
                && next@.cutoff == self@.cutoff && next@.workflow_id == self@.workflow_id,
            reply is Begun ==> (step matches Step::Continue(next) && next@.stage is Lock),
            reply is Locked ==> (step matches Step::Continue(next) && next@.stage is ReadHead),
            reply matches Reply::Head(Some(created_at)) ==> created_at.secs * 0x1_0000_0000
                + created_at.nanos > self@.cutoff.secs * 0x1_0000_0000 + self@.cutoff.nanos ==> (
            step matches Step::Return(Ok(None))),
            reply matches Reply::Head(head) ==> (head matches Some(created_at) ==> created_at.secs
                * 0x1_0000_0000 + created_at.nanos <= self@.cutoff.secs * 0x1_0000_0000
                + self@.cutoff.nanos) ==> (step matches Step::Continue(next)
                && next@.stage is DeleteWorkflow),
            reply matches Reply::Deleted(row) ==> (step matches Step::Continue(next) && next@.stage
                == (Stage::HideDefinitions { row })),
            reply is Hidden ==> match self@.stage->row {
                None => step matches Step::Continue(next) && next@.stage == (Stage::<E>::Commit {
                    channel: None,
                }),
                Some(Ok(channel)) => step matches Step::Continue(next) && next@.stage == (Stage::<
                    E,
                >::Commit { channel }),
                Some(Err(error)) => step == Step::Return(Err(DbError::Database(error))),
            },
            reply is Committed ==> step == Step::<E>::Return(Ok(self@.stage->channel)),
            reply matches Reply::Failed(error) ==> step == Step::Return(
                Err(DbError::Database(error)),
            ),
    {
        let WorkflowDeletion { coordinate, cutoff, workflow_id, stage } = self;
        let stage = match reply {
            Reply::Begun => Stage::Lock,
            Reply::Locked => Stage::ReadHead,
            Reply::Head(Some(created_at)) => {
                if created_at.is_later_than(&cutoff) {
                    return Step::Return(Ok(None));
                }
                Stage::DeleteWorkflow
            },
            Reply::Head(None) => Stage::DeleteWorkflow,
            Reply::Deleted(row) => Stage::HideDefinitions { row },
            Reply::Hidden => match stage {
                Stage::HideDefinitions { row: Some(Ok(channel)) } => Stage::Commit { channel },
                Stage::HideDefinitions { row: Some(Err(error)) } => {
                    return Step::Return(Err(DbError::Database(error)));
                },
                _ => Stage::Commit { channel: None },
            },
            Reply::Committed => {
                let channel: Option<u128> = match stage {
                    Stage::Commit { channel } => channel,
                    _ => None,
                };
                return Step::Return(Ok(channel));
            },
            Reply::Failed(error) => {
                return Step::Return(Err(DbError::Database(error)));
            },
        };
        Step::Continue(WorkflowDeletion { coordinate, cutoff, workflow_id, stage })
    }
}

/// The store's operations.
#[derive(Debug, Clone, Copy)]
pub struct Db;

impl Db {
    /// Deletes an authorized workflow coordinate and its definition atomically.
    ///
    /// Shares the replacement lock with definition saves. A deletion older than
    /// the live definition is a no-op. Missing projections are tolerated so a
    /// retry can remove definitions left behind by older relay versions. The
    /// deletion returns the removed projection's channel for trigger-cache
    /// invalidation.
    ///
    /// What comes back here is the deletion, ready to be led through its
    /// transaction; a deletion time that is no instant is refused. A d-tag that has
    /// not even the length of a UUID is sure to be taken for a name.
    pub fn delete_workflow_by_coordinate<E>(
        &self,
        community_id: CommunityId,
        owner_pubkey: &[u8],
        d_tag: &str,
        deletion_created_at_secs: i64,
    ) -> (deletion: Result<WorkflowDeletion<E>, DbError<E>>)
        ensures
            match deletion {
                Ok(deletion) => {
                    &&& utc_second(deletion_created_at_secs) is Some
                    &&& -8334601228800 <= deletion_created_at_secs <= 8210266876799
                    &&& deletion@.coordinate.community_id == community_id@
                    &&& deletion@.coordinate.owner_pubkey == owner_pubkey@
                    &&& deletion@.coordinate.d_tag == d_tag@
                    &&& deletion@.cutoff.secs == deletion_created_at_secs
                    &&& deletion@.cutoff.nanos == 0
                    &&& deletion@.workflow_id == uuid_from_text(d_tag@)
                    &&& deletion@.stage is Begin
                    &&& deletion@ == DeletionView::<E>::start(
                        CoordinateView {
                            community_id: community_id@,
                            owner_pubkey: owner_pubkey@,
                            d_tag: d_tag@,
                        },
                        utc_second(deletion_created_at_secs).unwrap(),
                        uuid_from_text(d_tag@),
                    )
                    &&& !has_uuid_length(d_tag@) ==> deletion@.workflow_id is None
                },
                Err(error) => {
                    &&& utc_second(deletion_created_at_secs) is None
                    &&& !(-8334601228800 <= deletion_created_at_secs <= 8210266876799)
                    &&& error == DbError::<E>::InvalidTimestamp(deletion_created_at_secs)
                },
            },
    {
        let cutoff = match Timestamp::from_secs(deletion_created_at_secs) {
            Some(cutoff) => cutoff,
            None => {
                return Err(DbError::InvalidTimestamp(deletion_created_at_secs));
            },
        };
        // UUID coordinates are canonical; any other d-tag is a legacy name.
        let id = workflow_id(d_tag);
        let coordinate = Coordinate {
            community_id,
            owner_pubkey: slice_to_vec(owner_pubkey),
            d_tag: d_tag.to_owned(),
        };
        Ok(WorkflowDeletion::start(coordinate, cutoff, id))
    }
}

/// The definitions at a coordinate are those of its own community, of kind 30620, by
/// its own owner and of its own d-tag.
pub proof fn law_definition_key_is_the_coordinates_own(coordinate: CoordinateView)
    ensures
        coordinate.definition_key().community_id == coordinate.community_id,
        coordinate.definition_key().kind == 30620,
        coordinate.definition_key().pubkey == coordinate.owner_pubkey,
        coordinate.definition_key().d_tag == coordinate.d_tag,
{
}

/// Two coordinates have the definitions of one key only if they are the same.
pub proof fn law_definition_keys_tell_coordinates_apart(one: CoordinateView, other: CoordinateView)
    ensures
        one.definition_key() == other.definition_key() <==> one == other,
{
}

/// What a coordinate stands for is what its fields hold.
pub proof fn law_coordinate_view_shows_the_fields(coordinate: Coordinate)
    ensures
        coordinate@.community_id == coordinate.community_id@,
        coordinate@.owner_pubkey == coordinate.owner_pubkey@,
        coordinate@.d_tag == coordinate.d_tag@,
{
}

/// What an action stands for is what it holds.
pub proof fn law_action_view_shows_the_action(action: Action)
    ensures
        match action {
            Action::Begin => action@ is Begin,
            Action::Lock(key) => action@ == ActionView::Lock(key@),
            Action::Run(statement) => action@ == ActionView::Run(statement@),
            Action::Commit => action@ is Commit,
        },
{
}

/// What a step stands for is what it holds.
pub proof fn law_step_view_shows_the_step<E>(step: Step<E>)
    ensures
        match step {
            Step::Continue(deletion) => step@ == StepView::Continue(deletion@),
            Step::Return(result) => step@ == StepView::Return(result),
        },
{
}

/// A deletion starts with what it was given, and nothing done.
pub proof fn law_start_takes_what_it_is_given<E>(
    coordinate: CoordinateView,
    cutoff: Timestamp,
    workflow_id: Option<u128>,
)
    ensures
        ({
            let deletion = DeletionView::<E>::start(coordinate, cutoff, workflow_id);
            &&& deletion.coordinate == coordinate
            &&& deletion.cutoff == cutoff
            &&& deletion.workflow_id == workflow_id
            &&& deletion.stage is Begin
        }),
{
}

/// Every action is on the deletion's own coordinate. What is locked, read and hidden
/// are the definitions of the coordinate's community, of kind 30620, by its owner and
/// of its d-tag; what is deleted is a workflow of that community and owner, by the id
/// or else by the d-tag as its name; and the cutoff is the deletion's own time.
pub proof fn law_actions_are_on_the_own_coordinate<E>(deletion: DeletionView<E>)
    ensures
        match deletion.action() {
            ActionView::Begin => deletion.stage is Begin,
            ActionView::Lock(key) => {
                &&& deletion.stage is Lock
                &&& key.community_id == deletion.coordinate.community_id
                &&& key.kind == 30620
                &&& key.pubkey == deletion.coordinate.owner_pubkey
                &&& key.d_tag == deletion.coordinate.d_tag
            },
            ActionView::Run(StatementView::ReadHead { key }) => {
                &&& deletion.stage is ReadHead
                &&& key.community_id == deletion.coordinate.community_id
                &&& key.kind == 30620
                &&& key.pubkey == deletion.coordinate.owner_pubkey
                &&& key.d_tag == deletion.coordinate.d_tag
            },
            ActionView::Run(
                StatementView::DeleteWorkflow { community_id, owner_pubkey, workflow_id, name },
            ) => {
                &&& deletion.stage is DeleteWorkflow
                &&& community_id == deletion.coordinate.community_id
                &&& owner_pubkey == deletion.coordinate.owner_pubkey
                &&& workflow_id == deletion.workflow_id
                &&& name == deletion.coordinate.d_tag
            },
            ActionView::Run(StatementView::HideDefinitions { key, cutoff }) => {
                &&& deletion.stage is HideDefinitions
                &&& key.community_id == deletion.coordinate.community_id
                &&& key.kind == 30620
                &&& key.pubkey == deletion.coordinate.owner_pubkey
                &&& key.d_tag == deletion.coordinate.d_tag
                &&& cutoff == deletion.cutoff
            },
            ActionView::Commit => deletion.stage is Commit,
        },
{
}

/// A failure can come at any time. Any other reply is awaited at one stage and no
/// other, whatever it tells.
pub proof fn law_each_reply_has_its_stage<E>(
    deletion: DeletionView<E>,
    head: Option<Timestamp>,
    row: Option<RowChannel<E>>,
    error: E,
)
    ensures
        deletion.awaits(Reply::Failed(error)),
        deletion.awaits(Reply::Begun) <==> deletion.stage is Begin,
        deletion.awaits(Reply::Locked) <==> deletion.stage is Lock,
        deletion.awaits(Reply::Head(head)) <==> deletion.stage is ReadHead,
        deletion.awaits(Reply::Deleted(row)) <==> deletion.stage is DeleteWorkflow,
        deletion.awaits(Reply::Hidden) <==> deletion.stage is HideDefinitions,
        deletion.awaits(Reply::Committed) <==> deletion.stage is Commit,
{
}

/// A deletion stays the same deletion: no reply changes its coordinate, its time or
/// the workflow id.
pub proof fn law_replies_keep_the_deletion<E>(deletion: DeletionView<E>, reply: Reply<E>)
    ensures
        deletion.next(reply) matches StepView::Continue(next) ==> next.coordinate
            == deletion.coordinate && next.cutoff == deletion.cutoff && next.workflow_id
            == deletion.workflow_id,
{
}

/// A definition is too new exactly if it was created later than the deletion, seconds
/// first and then nanoseconds. It then ends the deletion with nothing given back;
/// otherwise, and where there is no definition, the workflow is deleted next.
pub proof fn law_newer_definition_ends_the_deletion<E>(
    deletion: DeletionView<E>,
    created_at: Timestamp,
)
    ensures
        (created_at.secs * 0x1_0000_0000 + created_at.nanos > deletion.cutoff.secs * 0x1_0000_0000
            + deletion.cutoff.nanos) <==> deletion.next(Reply::Head(Some(created_at)))
            == StepView::<E>::Return(Ok(None)),
        (created_at.secs * 0x1_0000_0000 + created_at.nanos <= deletion.cutoff.secs * 0x1_0000_0000
            + deletion.cutoff.nanos) <==> (deletion.next(
            Reply::Head(Some(created_at)),
        ) matches StepView::Continue(next) && next.stage is DeleteWorkflow),
        (deletion.next(Reply::Head(None)) matches StepView::Continue(next)
            && next.stage is DeleteWorkflow),
{
}

/// The steps come in one order, and what the deletion gives back is what stood in the
/// deleted row's channel; a row that cannot be read, and any failure, ends the
/// deletion with that very error.
pub proof fn law_steps_lead_to_the_rows_channel<E>(
    deletion: DeletionView<E>,
    row: Option<RowChannel<E>>,
    channel: Option<u128>,
    error: E,
)
    ensures
        (deletion.next(Reply::Begun) matches StepView::Continue(next) && next.stage is Lock),
        (deletion.next(Reply::Locked) matches StepView::Continue(next) && next.stage is ReadHead),
        (deletion.next(Reply::Deleted(row)) matches StepView::Continue(next) && next.stage == (
        Stage::HideDefinitions { row })),
        deletion.stage == (Stage::<E>::HideDefinitions { row: None }) ==> (deletion.next(
            Reply::Hidden,
        ) matches StepView::Continue(next) && next.stage == (Stage::<E>::Commit { channel: None })),
        deletion.stage == (Stage::<E>::HideDefinitions { row: Some(Ok(channel)) }) ==> (
        deletion.next(Reply::Hidden) matches StepView::Continue(next) && next.stage == (Stage::<
            E,
        >::Commit { channel })),
        deletion.stage == (Stage::<E>::HideDefinitions { row: Some(Err(error)) })
            ==> deletion.next(Reply::Hidden) == StepView::<E>::Return(
            Err(DbError::Database(error)),
        ),
        deletion.stage == (Stage::<E>::Commit { channel }) ==> deletion.next(Reply::Committed)
            == StepView::<E>::Return(Ok(channel)),
        deletion.next(Reply::Failed(error)) == StepView::<E>::Return(
            Err(DbError::Database(error)),
        ),
{
}

} // verus!
