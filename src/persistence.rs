//! The catalog of index definitions and the protocol that creates one.
//!
//! Creating an index touches two stores: a catalog row is inserted inside a
//! transaction, the vector store is asked for the collection, and the
//! transaction is committed only if both succeeded. The protocol below makes
//! those decisions; its caller performs each action against the stores and
//! hands back what they answered.
use vstd::prelude::*;

use crate::hashing::string_views;
use crate::vectordbs::{CreateIndexParams, VectorDbError, VectorStore};

verus! {

#[verifier::external_type_specification]
#[verifier::external_body]
pub struct ExJsonError(serde_json::Error);

/// The JSON text of a list of strings, as serde_json writes it.
pub uninterp spec fn json_of_fields(fields: Seq<Seq<char>>) -> Seq<char>;

/// The list of strings that a JSON text holds, if it is a JSON array of strings.
pub uninterp spec fn fields_of_json(text: Seq<char>) -> Option<Seq<Seq<char>>>;

/// Relies on `serde_json::to_string` on a `Vec<String>`: it writes into memory
/// and strings always serialize, so it succeeds; the JSON text it returns
/// escapes every string, so reading it back gives the list.
#[verifier::external_body]
fn fields_to_json(fields: &Vec<String>) -> (r: Result<String, serde_json::Error>)
    ensures
        r is Ok,
        r matches Ok(s) ==> s@ == json_of_fields(string_views(fields@)),
        r matches Ok(s) ==> fields_of_json(s@) == Some(string_views(fields@)),
{
    serde_json::to_string(fields)
}

/// Relies on `serde_json::from_str::<Vec<String>>`: it succeeds exactly on the
/// texts that hold a list of strings, and returns that list.
#[verifier::external_body]
pub(crate) fn fields_from_json(text: &str) -> (r: Result<Vec<String>, serde_json::Error>)
    ensures
        match r {
            Ok(v) => fields_of_json(text@) == Some(string_views(v@)),
            Err(_) => fields_of_json(text@) is None,
        },
{
    serde_json::from_str(text)
}

/// Failures of the catalog.
#[derive(Debug)]
pub enum RespositoryError {
    /// The relational store failed; it said this.
    DatabaseError(String),
    VectorDb(VectorDbError),
    IndexNotFound(String),
    IndexAlreadyExists(String),
    UniqueParamsSerializationError(serde_json::Error),
}

/// One catalog row.
#[derive(Debug)]
pub struct IndexDefinition {
    pub name: String,
    pub embedding_model: String,
    pub text_splitter: String,
    pub vector_db: String,
    pub vector_db_params: Option<String>,
    /// The dedup fields, as a JSON list, if the index has any.
    pub unique_params: Option<String>,
}

/// The dedup fields that a catalog row records: none when it records no list,
/// and nothing when its list cannot be read.
pub open spec fn recorded_fields(d: IndexDefinition) -> Option<Seq<Seq<char>>> {
    match d.unique_params {
        Some(u) => fields_of_json(u@),
        None => Some(Seq::empty()),
    }
}

/// The dedup fields that creation parameters ask for.
pub open spec fn requested_fields(params: CreateIndexParams) -> Seq<Seq<char>> {
    match params.unique_params {
        Some(fields) => string_views(fields@),
        None => Seq::empty(),
    }
}

/// The catalog row for a new index.
pub fn new_index_definition(
    params: &CreateIndexParams,
    embedding_model: String,
    text_splitter: String,
    vectordb: &VectorStore,
) -> (r: Result<IndexDefinition, RespositoryError>)
    ensures
        r matches Ok(d) && {
            &&& d.name@ == params.name@
            &&& d.embedding_model == embedding_model
            &&& d.text_splitter == text_splitter
            &&& d.vector_db@ == vectordb.spec_name()
            &&& d.vector_db_params is None
            &&& match params.unique_params {
                Some(fields) => d.unique_params matches Some(u) && u@ == json_of_fields(
                    string_views(fields@),
                ),
                None => d.unique_params is None,
            }
            &&& recorded_fields(d) == Some(requested_fields(*params))
        },
{
    let unique_params = match &params.unique_params {
        Some(fields) => match fields_to_json(fields) {
            Ok(s) => Some(s),
            Err(e) => {
                return Err(RespositoryError::UniqueParamsSerializationError(e));
            },
        },
        None => None,
    };
    Ok(IndexDefinition {
        name: params.name.clone(),
        embedding_model,
        text_splitter,
        vector_db: vectordb.name(),
        vector_db_params: None,
        unique_params,
    })
}

/// The outcome of looking up index `name`, given the row the store found.
pub fn index_from_lookup(name: String, found: Option<IndexDefinition>) -> (r: Result<
    IndexDefinition,
    RespositoryError,
>)
    ensures
        match found {
            Some(d) => r == Ok::<IndexDefinition, RespositoryError>(d),
            None => r matches Err(RespositoryError::IndexNotFound(n)) && n == name,
        },
{
    match found {
        Some(d) => Ok(d),
        None => Err(RespositoryError::IndexNotFound(name)),
    }
}

/// Where a creation stands.
#[derive(Debug)]
pub enum CreatePhase {
    AwaitBegin,
    AwaitInsert,
    AwaitCollection,
    AwaitCommit,
    /// Rolling back; the creation then fails with this error.
    AwaitRollback(RespositoryError),
    Done,
}

/// What the caller is to do next.
#[derive(Debug)]
pub enum CreateAction {
    BeginTransaction,
    /// Insert this row inside the transaction.
    InsertRow(IndexDefinition),
    /// Ask the vector store for the collection.
    CreateCollection,
    Rollback,
    Commit,
    /// Stop: the creation ended so.
    Finish(Result<(), RespositoryError>),
}

/// What the stores answered to the last action.
#[derive(Debug)]
pub enum CreateEvent {
    TransactionBegun,
    RowInserted,
    /// The insert failed; `unique_violation` tells whether the store reported
    /// a violation of the name's uniqueness.
    InsertRejected { unique_violation: bool, message: String },
    CollectionCreated,
    CollectionFailed(VectorDbError),
    RolledBack,
    Committed,
    /// Beginning, committing or rolling back the transaction failed.
    StoreFailed(String),
}

/// The state of one index creation.
#[derive(Debug)]
pub struct CreateIndexProtocol {
    pub row: IndexDefinition,
    pub phase: CreatePhase,
}

/// Whether a creation in `phase` expects `event` next.
pub open spec fn accepts_spec(phase: CreatePhase, event: CreateEvent) -> bool {
    match phase {
        CreatePhase::AwaitBegin => event is TransactionBegun || event is StoreFailed,
        CreatePhase::AwaitInsert => event is RowInserted || event is InsertRejected,
        CreatePhase::AwaitCollection => event is CollectionCreated || event is CollectionFailed,
        CreatePhase::AwaitCommit => event is Committed || event is StoreFailed,
        CreatePhase::AwaitRollback(_) => event is RolledBack || event is StoreFailed,
        CreatePhase::Done => false,
    }
}

/// The next phase and action of a creation in `phase` for row `row` that
/// receives `event`.
pub open spec fn step_spec(row: IndexDefinition, phase: CreatePhase, event: CreateEvent) -> (
    CreatePhase,
    CreateAction,
) {
    match phase {
        CreatePhase::AwaitBegin => match event {
            CreateEvent::TransactionBegun => (CreatePhase::AwaitInsert, CreateAction::InsertRow(row)),
            CreateEvent::StoreFailed(m) => (
                CreatePhase::Done,
                CreateAction::Finish(Err(RespositoryError::DatabaseError(m))),
            ),
            _ => (phase, CreateAction::BeginTransaction),
        },
        CreatePhase::AwaitInsert => match event {
            CreateEvent::RowInserted => (CreatePhase::AwaitCollection, CreateAction::CreateCollection),
            CreateEvent::InsertRejected { unique_violation, message } => if unique_violation {
                (
                    CreatePhase::AwaitRollback(RespositoryError::IndexAlreadyExists(row.name)),
                    CreateAction::Rollback,
                )
            } else {
                (
                    CreatePhase::AwaitRollback(RespositoryError::DatabaseError(message)),
                    CreateAction::Rollback,
                )
            },
            _ => (phase, CreateAction::InsertRow(row)),
        },
        CreatePhase::AwaitCollection => match event {
            CreateEvent::CollectionCreated => (CreatePhase::AwaitCommit, CreateAction::Commit),
            CreateEvent::CollectionFailed(e) => (
                CreatePhase::AwaitRollback(RespositoryError::VectorDb(e)),
                CreateAction::Rollback,
            ),
            _ => (phase, CreateAction::CreateCollection),
        },
        CreatePhase::AwaitCommit => match event {
            CreateEvent::Committed => (CreatePhase::Done, CreateAction::Finish(Ok(()))),
            CreateEvent::StoreFailed(m) => (
                CreatePhase::Done,
                CreateAction::Finish(Err(RespositoryError::DatabaseError(m))),
            ),
            _ => (phase, CreateAction::Commit),
        },
        CreatePhase::AwaitRollback(pending) => match event {
            CreateEvent::RolledBack => (CreatePhase::Done, CreateAction::Finish(Err(pending))),
            CreateEvent::StoreFailed(m) => (
                CreatePhase::Done,
                CreateAction::Finish(Err(RespositoryError::DatabaseError(m))),
            ),
            _ => (CreatePhase::AwaitRollback(pending), CreateAction::Rollback),
        },
        CreatePhase::Done => (phase, CreateAction::Finish(Ok(()))),
    }
}

/// The catalog as a creation sees it: the committed rows by name, and the row
/// staged in the open transaction, if any.
pub type CatalogView = (Map<Seq<char>, IndexDefinition>, Option<IndexDefinition>);

/// Answers that a store which keeps names unique can give to `action`: an
/// insert succeeds only for a name not committed yet, and it is refused as a
/// uniqueness violation exactly when the name is committed already.
pub open spec fn store_answer_allowed(cat: CatalogView, action: CreateAction, event: CreateEvent) -> bool {
    match action {
        CreateAction::InsertRow(row) => match event {
            CreateEvent::RowInserted => !cat.0.contains_key(row.name@),
            CreateEvent::InsertRejected { unique_violation, .. } => unique_violation
                == cat.0.contains_key(row.name@),
            _ => true,
        },
        _ => true,
    }
}

/// The catalog after the store answered `event` to `action`: an insert stages
/// its row, a commit makes the staged row visible, and a rollback (or a failed
/// commit) discards it.
pub open spec fn catalog_after(cat: CatalogView, action: CreateAction, event: CreateEvent) -> CatalogView {
    match action {
        CreateAction::InsertRow(row) => if event is RowInserted {
            (cat.0, Some(row))
        } else {
            cat
        },
        CreateAction::Commit => if event is Committed {
            match cat.1 {
                Some(r) => (cat.0.insert(r.name@, r), None),
                None => cat,
            }
        } else {
            (cat.0, None)
        },
        CreateAction::Rollback => (cat.0, None),
        _ => cat,
    }
}

/// Where a creation of `row` ends up after receiving `events` in order, from
/// `phase` with `action` pending and the catalog at `cat`. It stops at the
/// first event that it does not expect.
pub open spec fn run_creation(
    row: IndexDefinition,
    phase: CreatePhase,
    action: CreateAction,
    cat: CatalogView,
    events: Seq<CreateEvent>,
) -> (CreatePhase, CreateAction, CatalogView)
    decreases events.len(),
{
    if events.len() == 0 || !accepts_spec(phase, events[0]) {
        (phase, action, cat)
    } else {
        let (p, a) = step_spec(row, phase, events[0]);
        run_creation(row, p, a, catalog_after(cat, action, events[0]), events.drop_first())
    }
}

/// Every event of the run that the creation takes is an answer the store can give.
pub open spec fn answers_allowed(
    row: IndexDefinition,
    phase: CreatePhase,
    action: CreateAction,
    cat: CatalogView,
    events: Seq<CreateEvent>,
) -> bool
    decreases events.len(),
{
    if events.len() == 0 || !accepts_spec(phase, events[0]) {
        true
    } else {
        let (p, a) = step_spec(row, phase, events[0]);
        &&& store_answer_allowed(cat, action, events[0])
        &&& answers_allowed(row, p, a, catalog_after(cat, action, events[0]), events.drop_first())
    }
}

/// What holds at each point of a creation of `row` that started on the
/// committed rows `committed`.
spec fn creation_inv(
    row: IndexDefinition,
    committed: Map<Seq<char>, IndexDefinition>,
    phase: CreatePhase,
    action: CreateAction,
    cat: CatalogView,
) -> bool {
    match phase {
        CreatePhase::AwaitBegin => action is BeginTransaction && cat == (committed, None::<IndexDefinition>),
        CreatePhase::AwaitInsert => action == CreateAction::InsertRow(row) && cat == (
            committed,
            None::<IndexDefinition>,
        ),
        CreatePhase::AwaitCollection => {
            &&& action is CreateCollection
            &&& cat == (committed, Some(row))
            &&& !committed.contains_key(row.name@)
        },
        CreatePhase::AwaitCommit => {
            &&& action is Commit
            &&& cat == (committed, Some(row))
            &&& !committed.contains_key(row.name@)
        },
        CreatePhase::AwaitRollback(pending) => {
            &&& action is Rollback
            &&& cat.0 == committed
            &&& pending is VectorDb ==> !committed.contains_key(row.name@)
            &&& pending is IndexAlreadyExists ==> pending == RespositoryError::IndexAlreadyExists(row.name)
            &&& pending is DatabaseError ==> !committed.contains_key(row.name@)
            &&& !(pending is IndexNotFound || pending is UniqueParamsSerializationError)
        },
        CreatePhase::Done => {
            &&& cat.1 is None
            &&& match action {
                CreateAction::Finish(Ok(_)) => cat.0 == committed.insert(row.name@, row)
                    && !committed.contains_key(row.name@),
                CreateAction::Finish(Err(e)) => {
                    &&& cat.0 == committed
                    &&& e is VectorDb ==> !committed.contains_key(row.name@)
                    &&& e is IndexAlreadyExists ==> e == RespositoryError::IndexAlreadyExists(row.name)
                    &&& !(e is IndexNotFound || e is UniqueParamsSerializationError)
                },
                _ => false,
            }
        },
    }
}

proof fn lemma_run_keeps_inv(
    row: IndexDefinition,
    committed: Map<Seq<char>, IndexDefinition>,
    phase: CreatePhase,
    action: CreateAction,
    cat: CatalogView,
    events: Seq<CreateEvent>,
)
    requires
        creation_inv(row, committed, phase, action, cat),
        answers_allowed(row, phase, action, cat, events),
    ensures
        ({
            let (p, a, c) = run_creation(row, phase, action, cat, events);
            creation_inv(row, committed, p, a, c)
        }),
    decreases events.len(),
{
    if events.len() > 0 && accepts_spec(phase, events[0]) {
        let (p, a) = step_spec(row, phase, events[0]);
        let c = catalog_after(cat, action, events[0]);
        assert(creation_inv(row, committed, p, a, c));
        lemma_run_keeps_inv(row, committed, p, a, c, events.drop_first());
    }
}

/// Creating an index changes the catalog only by adding the index's row, and
/// only when the creation succeeds: a creation that failed, or has not
/// finished, leaves every committed row as it was.
pub proof fn lemma_creation_is_atomic(
    row: IndexDefinition,
    committed: Map<Seq<char>, IndexDefinition>,
    events: Seq<CreateEvent>,
)
    requires
        answers_allowed(row, CreatePhase::AwaitBegin, CreateAction::BeginTransaction, (committed, None), events),
    ensures
        ({
            let (p, a, c) = run_creation(
                row,
                CreatePhase::AwaitBegin,
                CreateAction::BeginTransaction,
                (committed, None),
                events,
            );
            &&& a matches CreateAction::Finish(Ok(_)) ==> !committed.contains_key(row.name@)
                && c.0 == committed.insert(row.name@, row)
            &&& !(a matches CreateAction::Finish(Ok(_))) ==> c.0 == committed
        }),
{
    lemma_run_keeps_inv(
        row,
        committed,
        CreatePhase::AwaitBegin,
        CreateAction::BeginTransaction,
        (committed, None),
        events,
    );
}

/// Creating an index under a name that the catalog already holds never
/// succeeds and leaves the catalog, the existing definition included, as it
/// was. It fails with `IndexAlreadyExists(name)` unless the transaction itself
/// could not be begun or rolled back.
pub proof fn lemma_existing_name_is_refused(
    row: IndexDefinition,
    committed: Map<Seq<char>, IndexDefinition>,
    events: Seq<CreateEvent>,
)
    requires
        committed.contains_key(row.name@),
        answers_allowed(row, CreatePhase::AwaitBegin, CreateAction::BeginTransaction, (committed, None), events),
    ensures
        ({
            let (p, a, c) = run_creation(
                row,
                CreatePhase::AwaitBegin,
                CreateAction::BeginTransaction,
                (committed, None),
                events,
            );
            &&& c.0 == committed
            &&& c.0[row.name@] == committed[row.name@]
            &&& a matches CreateAction::Finish(r) ==> {
                ||| r matches Err(RespositoryError::IndexAlreadyExists(n)) && n == row.name
                ||| r matches Err(RespositoryError::DatabaseError(_))
            }
        }),
{
    lemma_run_keeps_inv(
        row,
        committed,
        CreatePhase::AwaitBegin,
        CreateAction::BeginTransaction,
        (committed, None),
        events,
    );
}

/// When the vector store fails to create the collection, the creation fails
/// with that error and the catalog holds no row of the index's name, so a
/// later lookup of the name finds nothing.
pub proof fn lemma_failed_collection_leaves_no_row(
    row: IndexDefinition,
    committed: Map<Seq<char>, IndexDefinition>,
    events: Seq<CreateEvent>,
)
    requires
        answers_allowed(row, CreatePhase::AwaitBegin, CreateAction::BeginTransaction, (committed, None), events),
    ensures
        ({
            let (p, a, c) = run_creation(
                row,
                CreatePhase::AwaitBegin,
                CreateAction::BeginTransaction,
                (committed, None),
                events,
            );
            a matches CreateAction::Finish(Err(RespositoryError::VectorDb(_))) ==> {
                &&& c.0 == committed
                &&& !c.0.contains_key(row.name@)
            }
        }),
{
    lemma_run_keeps_inv(
        row,
        committed,
        CreatePhase::AwaitBegin,
        CreateAction::BeginTransaction,
        (committed, None),
        events,
    );
}

impl CreateIndexProtocol {
    /// Starts the creation of the index whose catalog row is `row`.
    pub fn start(row: IndexDefinition) -> (r: (CreateIndexProtocol, CreateAction))
        ensures
            r.0.row == row,
            r.0.phase is AwaitBegin,
            r.1 is BeginTransaction,
    {
        (CreateIndexProtocol { row, phase: CreatePhase::AwaitBegin }, CreateAction::BeginTransaction)
    }

    /// Whether this creation expects `event` next.
    pub fn accepts(&self, event: &CreateEvent) -> (r: bool)
        ensures
            r == accepts_spec(self.phase, *event),
    {
        match self.phase {
            CreatePhase::AwaitBegin => matches!(event, CreateEvent::TransactionBegun | CreateEvent::StoreFailed(_)),
            CreatePhase::AwaitInsert => matches!(event, CreateEvent::RowInserted | CreateEvent::InsertRejected { .. }),
            CreatePhase::AwaitCollection => matches!(event, CreateEvent::CollectionCreated | CreateEvent::CollectionFailed(_)),
            CreatePhase::AwaitCommit => matches!(event, CreateEvent::Committed | CreateEvent::StoreFailed(_)),
            CreatePhase::AwaitRollback(_) => matches!(event, CreateEvent::RolledBack | CreateEvent::StoreFailed(_)),
            CreatePhase::Done => false,
        }
    }

    /// Takes the stores' answer to the last action and says what to do next.
    pub fn step(self, event: CreateEvent) -> (r: (CreateIndexProtocol, CreateAction))
        requires
            accepts_spec(self.phase, event),
        ensures
            r.0.row == self.row,
            (r.0.phase, r.1) == step_spec(self.row, self.phase, event),
    {
        let CreateIndexProtocol { row, phase } = self;
        let (phase, action) = match phase {
            CreatePhase::AwaitBegin => match event {
                CreateEvent::TransactionBegun => {
                    let action = CreateAction::InsertRow(copy_definition(&row));
                    (CreatePhase::AwaitInsert, action)
                },
                CreateEvent::StoreFailed(m) => (
                    CreatePhase::Done,
                    CreateAction::Finish(Err(RespositoryError::DatabaseError(m))),
                ),
                _ => (CreatePhase::AwaitBegin, CreateAction::BeginTransaction),
            },
            CreatePhase::AwaitInsert => match event {
                CreateEvent::RowInserted => (CreatePhase::AwaitCollection, CreateAction::CreateCollection),
                CreateEvent::InsertRejected { unique_violation, message } => if unique_violation {
                    (
                        CreatePhase::AwaitRollback(RespositoryError::IndexAlreadyExists(row.name.clone())),
                        CreateAction::Rollback,
                    )
                } else {
                    (
                        CreatePhase::AwaitRollback(RespositoryError::DatabaseError(message)),
                        CreateAction::Rollback,
                    )
                },
                _ => (CreatePhase::AwaitInsert, CreateAction::InsertRow(copy_definition(&row))),
            },
            CreatePhase::AwaitCollection => match event {
                CreateEvent::CollectionCreated => (CreatePhase::AwaitCommit, CreateAction::Commit),
                CreateEvent::CollectionFailed(e) => (
                    CreatePhase::AwaitRollback(RespositoryError::VectorDb(e)),
                    CreateAction::Rollback,
                ),
                _ => (CreatePhase::AwaitCollection, CreateAction::CreateCollection),
            },
            CreatePhase::AwaitCommit => match event {
                CreateEvent::Committed => (CreatePhase::Done, CreateAction::Finish(Ok(()))),
                CreateEvent::StoreFailed(m) => (
                    CreatePhase::Done,
                    CreateAction::Finish(Err(RespositoryError::DatabaseError(m))),
                ),
                _ => (CreatePhase::AwaitCommit, CreateAction::Commit),
            },
            CreatePhase::AwaitRollback(pending) => match event {
                CreateEvent::RolledBack => (CreatePhase::Done, CreateAction::Finish(Err(pending))),
                CreateEvent::StoreFailed(m) => (
                    CreatePhase::Done,
                    CreateAction::Finish(Err(RespositoryError::DatabaseError(m))),
                ),
                _ => (CreatePhase::AwaitRollback(pending), CreateAction::Rollback),
            },
            CreatePhase::Done => (CreatePhase::Done, CreateAction::Finish(Ok(()))),
        };
        (CreateIndexProtocol { row, phase }, action)
    }
}

/// A copy of a catalog row.
fn copy_definition(d: &IndexDefinition) -> (r: IndexDefinition)
    ensures
        r == *d,
{
    IndexDefinition {
        name: d.name.clone(),
        embedding_model: d.embedding_model.clone(),
        text_splitter: d.text_splitter.clone(),
        vector_db: d.vector_db.clone(),
        vector_db_params: copy_text(&d.vector_db_params),
        unique_params: copy_text(&d.unique_params),
    }
}

fn copy_text(t: &Option<String>) -> (r: Option<String>)
    ensures
        r == *t,
{
    match t {
        Some(s) => Some(s.clone()),
        None => None,
    }
}

} // verus!
