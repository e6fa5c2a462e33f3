use index_core::{
    create_vectordb, index_from_lookup, new_index_definition, CreateAction, CreateEvent,
    CreateIndexParams, CreateIndexProtocol, CreatePhase, IndexDefinition, IndexStoreKind,
    MetricKind, QdrantConfig, RespositoryError, VectorDbError, VectorIndexConfig, VectorStore,
};

fn store() -> VectorStore {
    create_vectordb(VectorIndexConfig {
        index_store: IndexStoreKind::Qdrant,
        qdrant_config: Some(QdrantConfig { addr: "http://localhost:6334".to_string() }),
        db_url: "sqlite::memory:".to_string(),
    })
    .unwrap()
}

fn params(unique: Option<Vec<String>>) -> CreateIndexParams {
    CreateIndexParams {
        name: "hello".to_string(),
        vector_dim: 384,
        metric: MetricKind::Cosine,
        unique_params: unique,
    }
}

fn definition() -> IndexDefinition {
    new_index_definition(&params(None), "all-minilm-l12-v2".to_string(), "noop".to_string(), &store())
        .unwrap()
}

/// Feeds `events` to a fresh creation and returns the actions it asked for.
fn run(events: Vec<CreateEvent>) -> Vec<CreateAction> {
    let (mut proto, first) = CreateIndexProtocol::start(definition());
    let mut actions = vec![first];
    for e in events {
        assert!(proto.accepts(&e));
        let (next, action) = proto.step(e);
        proto = next;
        actions.push(action);
    }
    actions
}

#[test]
fn definition_records_the_index() {
    let d = definition();
    assert_eq!(d.name, "hello");
    assert_eq!(d.embedding_model, "all-minilm-l12-v2");
    assert_eq!(d.text_splitter, "noop");
    assert_eq!(d.vector_db, "qdrant");
    assert_eq!(d.vector_db_params, None);
    assert_eq!(d.unique_params, None);
}

#[test]
fn definition_records_dedup_fields_as_json() {
    let p = params(Some(vec!["user_id".to_string(), "url".to_string()]));
    let d = new_index_definition(&p, "m".to_string(), "noop".to_string(), &store()).unwrap();
    assert_eq!(d.unique_params.as_deref(), Some("[\"user_id\",\"url\"]"));
}

#[test]
fn successful_creation_commits() {
    let actions = run(vec![
        CreateEvent::TransactionBegun,
        CreateEvent::RowInserted,
        CreateEvent::CollectionCreated,
        CreateEvent::Committed,
    ]);
    assert!(matches!(actions[0], CreateAction::BeginTransaction));
    match &actions[1] {
        CreateAction::InsertRow(row) => assert_eq!(row.name, "hello"),
        other => panic!("unexpected {:?}", other),
    }
    assert!(matches!(actions[2], CreateAction::CreateCollection));
    assert!(matches!(actions[3], CreateAction::Commit));
    assert!(matches!(actions[4], CreateAction::Finish(Ok(()))));
}

#[test]
fn existing_name_is_rolled_back_as_already_exists() {
    let actions = run(vec![
        CreateEvent::TransactionBegun,
        CreateEvent::InsertRejected { unique_violation: true, message: "UNIQUE constraint failed".to_string() },
        CreateEvent::RolledBack,
    ]);
    assert!(matches!(actions[2], CreateAction::Rollback));
    match &actions[3] {
        CreateAction::Finish(Err(RespositoryError::IndexAlreadyExists(name))) => assert_eq!(name, "hello"),
        other => panic!("unexpected {:?}", other),
    }
    assert!(!actions.iter().any(|a| matches!(a, CreateAction::CreateCollection | CreateAction::Commit)));
}

#[test]
fn failed_collection_is_rolled_back() {
    let actions = run(vec![
        CreateEvent::TransactionBegun,
        CreateEvent::RowInserted,
        CreateEvent::CollectionFailed(VectorDbError::IndexCreationError("bad dimension".to_string())),
        CreateEvent::RolledBack,
    ]);
    assert!(matches!(actions[3], CreateAction::Rollback));
    match &actions[4] {
        CreateAction::Finish(Err(RespositoryError::VectorDb(VectorDbError::IndexCreationError(m)))) => {
            assert_eq!(m, "bad dimension")
        }
        other => panic!("unexpected {:?}", other),
    }
    assert!(!actions.iter().any(|a| matches!(a, CreateAction::Commit)));
}

#[test]
fn other_insert_failures_are_reported() {
    let actions = run(vec![
        CreateEvent::TransactionBegun,
        CreateEvent::InsertRejected { unique_violation: false, message: "disk full".to_string() },
        CreateEvent::RolledBack,
    ]);
    match &actions[3] {
        CreateAction::Finish(Err(RespositoryError::DatabaseError(m))) => assert_eq!(m, "disk full"),
        other => panic!("unexpected {:?}", other),
    }
}

#[test]
fn store_failures_end_the_creation() {
    let begin = run(vec![CreateEvent::StoreFailed("no connection".to_string())]);
    assert!(matches!(&begin[1], CreateAction::Finish(Err(RespositoryError::DatabaseError(m))) if m == "no connection"));
    let commit = run(vec![
        CreateEvent::TransactionBegun,
        CreateEvent::RowInserted,
        CreateEvent::CollectionCreated,
        CreateEvent::StoreFailed("commit failed".to_string()),
    ]);
    assert!(matches!(&commit[4], CreateAction::Finish(Err(RespositoryError::DatabaseError(m))) if m == "commit failed"));
}

#[test]
fn unexpected_answers_are_not_accepted() {
    let (proto, _) = CreateIndexProtocol::start(definition());
    assert!(!proto.accepts(&CreateEvent::Committed));
    assert!(proto.accepts(&CreateEvent::TransactionBegun));
    let (proto, _) = proto.step(CreateEvent::StoreFailed("x".to_string()));
    assert!(matches!(proto.phase, CreatePhase::Done));
    assert!(!proto.accepts(&CreateEvent::TransactionBegun));
}

#[test]
fn lookup_of_unknown_index_is_not_found() {
    match index_from_lookup("missing".to_string(), None) {
        Err(RespositoryError::IndexNotFound(n)) => assert_eq!(n, "missing"),
        other => panic!("unexpected {:?}", other),
    }
    let found = index_from_lookup("hello".to_string(), Some(definition())).unwrap();
    assert_eq!(found.name, "hello");
}
