//! The statements that a workflow deletion runs, as text and parameters.
use crate::identity::CommunityId;
use crate::timestamp::Timestamp;
use vstd::prelude::*;

verus! {

/// The event kind of workflow definitions.
pub const KIND_WORKFLOW_DEF: i32 = 30620;

/// Takes the transaction's advisory lock on the key bound to the one parameter.
pub const ADVISORY_LOCK_SQL: &'static str = "SELECT pg_advisory_xact_lock($1)";

/// Reads the creation time of the newest live definition of a key.
pub const READ_HEAD_SQL: &'static str =
    "SELECT created_at FROM events WHERE community_id = $1 AND kind = $2 \
    AND pubkey = $3 AND d_tag = $4 AND deleted_at IS NULL ORDER BY \
    created_at DESC LIMIT 1";

/// Deletes a workflow by its id or else by its name. The owner is part of the
/// statement itself, not only of a check made before.
pub const DELETE_WORKFLOW_SQL: &'static str =
    "DELETE FROM workflows WHERE community_id = $1 AND owner_pubkey = $2 \
    AND id = COALESCE($3::uuid, (SELECT id FROM workflows WHERE \
    community_id = $1 AND owner_pubkey = $2 AND name = $4 LIMIT 1)) \
    RETURNING channel_id";

/// Marks the live definitions of a key as deleted, up to a cutoff.
pub const HIDE_DEFINITIONS_SQL: &'static str =
    "UPDATE events SET deleted_at = NOW() WHERE community_id = $1 AND kind \
    = $2 AND pubkey = $3 AND d_tag = $4 AND deleted_at IS NULL AND \
    created_at <= $5";

/// What replaceable definition events share that replace one another.
#[derive(Debug)]
pub struct DefinitionKey {
    pub community_id: CommunityId,
    pub kind: i32,
    pub pubkey: Vec<u8>,
    pub d_tag: String,
}

/// What a [`DefinitionKey`] stands for.
pub struct DefinitionKeyView {
    pub community_id: u128,
    pub kind: i32,
    pub pubkey: Seq<u8>,
    pub d_tag: Seq<char>,
}

impl View for DefinitionKey {
    type V = DefinitionKeyView;

    open spec fn view(&self) -> DefinitionKeyView {
        DefinitionKeyView {
            community_id: self.community_id@,
            kind: self.kind,
            pubkey: self.pubkey@,
            d_tag: self.d_tag@,
        }
    }
}

/// A statement on the tables `events` and `workflows`.
#[derive(Debug)]
pub enum Statement {
    /// Reads when the newest live definition was created.
    ReadHead { key: DefinitionKey },
    /// Deletes the owner's workflow with the given id or, where there is none, one
    /// of the owner's workflows of the given name, and reads its channel.
    DeleteWorkflow {
        community_id: CommunityId,
        owner_pubkey: Vec<u8>,
        workflow_id: Option<u128>,
        name: String,
    },
    /// Marks the live definitions as deleted that are no newer than the cutoff.
    HideDefinitions { key: DefinitionKey, cutoff: Timestamp },
}

/// What a [`Statement`] stands for.
pub enum StatementView {
    ReadHead { key: DefinitionKeyView },
    DeleteWorkflow {
        community_id: u128,
        owner_pubkey: Seq<u8>,
        workflow_id: Option<u128>,
        name: Seq<char>,
    },
    HideDefinitions { key: DefinitionKeyView, cutoff: Timestamp },
}

impl View for Statement {
    type V = StatementView;

    open spec fn view(&self) -> StatementView {
        match self {
            Statement::ReadHead { key } => StatementView::ReadHead { key: key@ },
            Statement::DeleteWorkflow { community_id, owner_pubkey, workflow_id, name } =>
                StatementView::DeleteWorkflow {
                    community_id: community_id@,
                    owner_pubkey: owner_pubkey@,
                    workflow_id: *workflow_id,
                    name: name@,
                },
            Statement::HideDefinitions { key, cutoff } => StatementView::HideDefinitions {
                key: key@,
                cutoff: *cutoff,
            },
        }
    }
}

/// A value for one parameter of a statement.
#[derive(Debug)]
pub enum Bind {
    Uuid(u128),
    OptionalUuid(Option<u128>),
    Int(i32),
    Bytes(Vec<u8>),
    Text(String),
    Instant(Timestamp),
}

/// What a [`Bind`] stands for.
pub enum BindView {
    Uuid(u128),
    OptionalUuid(Option<u128>),
    Int(i32),
    Bytes(Seq<u8>),
    Text(Seq<char>),
    Instant(Timestamp),
}

impl View for Bind {
    type V = BindView;

    open spec fn view(&self) -> BindView {
        match self {
            Bind::Uuid(uuid) => BindView::Uuid(*uuid),
            Bind::OptionalUuid(uuid) => BindView::OptionalUuid(*uuid),
            Bind::Int(number) => BindView::Int(*number),
            Bind::Bytes(bytes) => BindView::Bytes(bytes@),
            Bind::Text(text) => BindView::Text(text@),
            Bind::Instant(instant) => BindView::Instant(*instant),
        }
    }
}

impl DefinitionKeyView {
    /// The first four parameters of a statement on the key's definitions.
    pub open spec fn binds(self) -> Seq<BindView> {
        seq![
            BindView::Uuid(self.community_id),
            BindView::Int(self.kind),
            BindView::Bytes(self.pubkey),
            BindView::Text(self.d_tag),
        ]
    }
}

impl StatementView {
    /// The statement's text.
    pub open spec fn sql(self) -> Seq<char> {
        match self {
            StatementView::ReadHead { .. } => READ_HEAD_SQL@,
            StatementView::DeleteWorkflow { .. } => DELETE_WORKFLOW_SQL@,
            StatementView::HideDefinitions { .. } => HIDE_DEFINITIONS_SQL@,
        }
    }

    /// The statement's parameters, `$1` first.
    pub open spec fn binds(self) -> Seq<BindView> {
        match self {
            StatementView::ReadHead { key } => key.binds(),
            StatementView::DeleteWorkflow { community_id, owner_pubkey, workflow_id, name } => seq![
                BindView::Uuid(community_id),
                BindView::Bytes(owner_pubkey),
                BindView::OptionalUuid(workflow_id),
                BindView::Text(name),
            ],
            StatementView::HideDefinitions { key, cutoff } => key.binds().push(
                BindView::Instant(cutoff),
            ),
        }
    }
}

impl DefinitionKey {
    fn into_binds(self) -> (binds: Vec<Bind>)
        ensures
            binds@.map_values(|bind: Bind| bind@) == self@.binds(),
    {
        let binds = vec![
            Bind::Uuid(self.community_id.as_uuid()),
            Bind::Int(self.kind),
            Bind::Bytes(self.pubkey),
            Bind::Text(self.d_tag),
        ];
        assert(binds@.map_values(|bind: Bind| bind@) =~= self@.binds());
        binds
    }
}

impl Statement {
    /// The text to prepare.
    pub fn sql(&self) -> (sql: &'static str)
        ensures
            sql@ == self@.sql(),
    {
        match self {
            Statement::ReadHead { .. } => READ_HEAD_SQL,
            Statement::DeleteWorkflow { .. } => DELETE_WORKFLOW_SQL,
            Statement::HideDefinitions { .. } => HIDE_DEFINITIONS_SQL,
        }
    }

    /// The values to bind, in the order of the parameters.
    pub fn into_binds(self) -> (binds: Vec<Bind>)
        ensures
            binds@.map_values(|bind: Bind| bind@) == self@.binds(),
    {
        match self {
            Statement::ReadHead { key } => key.into_binds(),
            Statement::DeleteWorkflow { community_id, owner_pubkey, workflow_id, name } => {
                let binds = vec![
                    Bind::Uuid(community_id.as_uuid()),
                    Bind::Bytes(owner_pubkey),
                    Bind::OptionalUuid(workflow_id),
                    Bind::Text(name),
                ];
                assert(binds@.map_values(|bind: Bind| bind@) =~= self@.binds());
                binds
            },
            Statement::HideDefinitions { key, cutoff } => {
                let mut binds = key.into_binds();
                binds.push(Bind::Instant(cutoff));
                assert(binds@.map_values(|bind: Bind| bind@) =~= self@.binds());
                binds
            },
        }
    }
}

/// The text of a statement is fixed by what it does; no parameter enters into it.
pub proof fn law_statement_texts_are_fixed(statement: StatementView)
    ensures
        statement is ReadHead ==> statement.sql()
            == "SELECT created_at FROM events WHERE community_id = $1 AND kind = $2 \
                AND pubkey = $3 AND d_tag = $4 AND deleted_at IS NULL ORDER BY \
                created_at DESC LIMIT 1"@,
        statement is DeleteWorkflow ==> statement.sql()
            == "DELETE FROM workflows WHERE community_id = $1 AND owner_pubkey = $2 \
                AND id = COALESCE($3::uuid, (SELECT id FROM workflows WHERE \
                community_id = $1 AND owner_pubkey = $2 AND name = $4 LIMIT 1)) \
                RETURNING channel_id"@,
        statement is HideDefinitions ==> statement.sql()
            == "UPDATE events SET deleted_at = NOW() WHERE community_id = $1 AND kind \
                = $2 AND pubkey = $3 AND d_tag = $4 AND deleted_at IS NULL AND \
                created_at <= $5"@,
{
}

/// The parameters of a statement on definitions are the key's own fields, in the
/// order of the text, and after them the cutoff where there is one.
pub proof fn law_definition_parameters_are_the_keys_fields(
    key: DefinitionKeyView,
    cutoff: Timestamp,
)
    ensures
        ({
            let read = (StatementView::ReadHead { key }).binds();
            let hide = (StatementView::HideDefinitions { key, cutoff }).binds();
            &&& read.len() == 4
            &&& hide.len() == 5
            &&& read[0] == BindView::Uuid(key.community_id) && hide[0] == read[0]
            &&& read[1] == BindView::Int(key.kind) && hide[1] == read[1]
            &&& read[2] == BindView::Bytes(key.pubkey) && hide[2] == read[2]
            &&& read[3] == BindView::Text(key.d_tag) && hide[3] == read[3]
            &&& hide[4] == BindView::Instant(cutoff)
        }),
{
}

/// The parameters of a workflow's deletion are the community, the owner, the id if
/// one is known, and the name, in the order of the text.
pub proof fn law_workflow_parameters_are_the_statements_fields(
    community_id: u128,
    owner_pubkey: Seq<u8>,
    workflow_id: Option<u128>,
    name: Seq<char>,
)
    ensures
        ({
            let binds = (StatementView::DeleteWorkflow {
                community_id,
                owner_pubkey,
                workflow_id,
                name,
            }).binds();
            &&& binds.len() == 4
            &&& binds[0] == BindView::Uuid(community_id)
            &&& binds[1] == BindView::Bytes(owner_pubkey)
            &&& binds[2] == BindView::OptionalUuid(workflow_id)
            &&& binds[3] == BindView::Text(name)
        }),
{
}

/// What a key stands for is what its fields hold.
pub proof fn law_key_view_shows_the_fields(key: DefinitionKey)
    ensures
        key@.community_id == key.community_id@,
        key@.kind == key.kind,
        key@.pubkey == key.pubkey@,
        key@.d_tag == key.d_tag@,
{
}

/// What a statement stands for is what its fields hold.
pub proof fn law_statement_view_shows_the_fields(statement: Statement)
    ensures
        match statement {
            Statement::ReadHead { key } => statement@ matches StatementView::ReadHead {
                key: shown,
            } && shown == key@,
            Statement::DeleteWorkflow { community_id, owner_pubkey, workflow_id, name } => {
                &&& statement@ is DeleteWorkflow
                &&& statement@->community_id == community_id@
                &&& statement@->owner_pubkey == owner_pubkey@
                &&& statement@->workflow_id == workflow_id
                &&& statement@->name == name@
            },
            Statement::HideDefinitions { key, cutoff } => {
                &&& statement@ is HideDefinitions
                &&& statement@->HideDefinitions_key == key@
                &&& statement@->cutoff == cutoff
            },
        },
{
}

/// What a parameter stands for is what it holds.
pub proof fn law_bind_view_shows_the_value(bind: Bind)
    ensures
        match bind {
            Bind::Uuid(uuid) => bind@ == BindView::Uuid(uuid),
            Bind::OptionalUuid(uuid) => bind@ == BindView::OptionalUuid(uuid),
            Bind::Int(number) => bind@ == BindView::Int(number),
            Bind::Bytes(bytes) => bind@ == BindView::Bytes(bytes@),
            Bind::Text(text) => bind@ == BindView::Text(text@),
            Bind::Instant(instant) => bind@ == BindView::Instant(instant),
        },
{
}

} // verus!
