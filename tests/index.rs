use index_core::{
    create_vectordb, load_index, new_index_definition, Attributes, CreateAction, CreateEvent,
    CreateIndexParams, CreateIndexProtocol, IndexDefinition, IndexError, IndexStoreKind,
    MetricKind, QdrantConfig, RespositoryError, Text, TextSplitterKind, VectorIndexConfig,
    VectorStore,
};

fn store() -> VectorStore {
    create_vectordb(VectorIndexConfig {
        index_store: IndexStoreKind::Qdrant,
        qdrant_config: Some(QdrantConfig { addr: "http://localhost:6334".to_string() }),
        db_url: "sqlite::memory:".to_string(),
    })
    .unwrap()
}

fn row(splitter: &str, unique: Option<&str>) -> IndexDefinition {
    IndexDefinition {
        name: "hello".to_string(),
        embedding_model: "all-minilm-l12-v2".to_string(),
        text_splitter: splitter.to_string(),
        vector_db: "qdrant".to_string(),
        vector_db_params: None,
        unique_params: unique.map(|u| u.to_string()),
    }
}

#[test]
fn splitter_names_round_trip() {
    let name = TextSplitterKind::Noop.name();
    assert_eq!(name, "noop");
    assert_eq!(TextSplitterKind::from_name(&name).unwrap(), TextSplitterKind::Noop);
    assert!(matches!(TextSplitterKind::from_name(&"regex".to_string()), Err(IndexError::LogicError(_))));
}

#[test]
fn noop_splitter_keeps_the_document() {
    let chunks = TextSplitterKind::Noop.split(&"hello world".to_string(), 1000, 0);
    assert_eq!(chunks, vec!["hello world".to_string()]);
}

#[test]
fn load_decodes_dedup_fields() {
    let idx = load_index("hello".to_string(), Some(row("noop", Some("[\"user_id\",\"url\"]"))), store()).unwrap();
    assert_eq!(idx.name, "hello");
    assert_eq!(idx.embedding_model, "all-minilm-l12-v2");
    assert_eq!(idx.text_splitter, TextSplitterKind::Noop);
    assert_eq!(idx.hash_on, vec!["user_id".to_string(), "url".to_string()]);
    let plain = load_index("hello".to_string(), Some(row("noop", None)), store()).unwrap();
    assert!(plain.hash_on.is_empty());
}

#[test]
fn load_of_unknown_index_is_not_found() {
    let r = load_index("missing".to_string(), None, store());
    assert!(matches!(r, Err(IndexError::Persistence(RespositoryError::IndexNotFound(ref n))) if n == "missing"));
}

#[test]
fn load_rejects_corrupt_dedup_fields() {
    let r = load_index("hello".to_string(), Some(row("noop", Some("[\"user_id\""))), store());
    assert!(matches!(r, Err(IndexError::UniqueParamsSerializationError(_))));
    let r = load_index("hello".to_string(), Some(row("noop", Some("{\"a\":1}"))), store());
    assert!(matches!(r, Err(IndexError::UniqueParamsSerializationError(_))));
}

#[test]
fn load_rejects_unknown_splitter() {
    let r = load_index("hello".to_string(), Some(row("markdown", None)), store());
    assert!(matches!(r, Err(IndexError::LogicError(_))));
}

#[test]
fn batch_is_split_document_by_document() {
    let idx = load_index("hello".to_string(), Some(row("noop", None)), store()).unwrap();
    let text = Text { texts: vec!["a".to_string(), "b".to_string()], metadata: Attributes::new() };
    assert_eq!(idx.split_batch(&text), vec!["a".to_string(), "b".to_string()]);
    let empty = Text { texts: Vec::new(), metadata: Attributes::new() };
    assert!(idx.split_batch(&empty).is_empty());
}

#[test]
fn hello_index_end_to_end_plan() {
    let params = CreateIndexParams {
        name: "hello".to_string(),
        vector_dim: 384,
        metric: MetricKind::Cosine,
        unique_params: None,
    };
    let kind = TextSplitterKind::Noop;
    let def = new_index_definition(&params, "all-minilm-l12-v2".to_string(), kind.name(), &store()).unwrap();
    let (mut proto, mut action) = CreateIndexProtocol::start(def);
    let answers = vec![
        CreateEvent::TransactionBegun,
        CreateEvent::RowInserted,
        CreateEvent::CollectionCreated,
        CreateEvent::Committed,
    ];
    let mut committed = None;
    for e in answers {
        if let CreateAction::InsertRow(r) = &action {
            committed = Some(IndexDefinition {
                name: r.name.clone(),
                embedding_model: r.embedding_model.clone(),
                text_splitter: r.text_splitter.clone(),
                vector_db: r.vector_db.clone(),
                vector_db_params: r.vector_db_params.clone(),
                unique_params: r.unique_params.clone(),
            });
        }
        let (p, a) = proto.step(e);
        proto = p;
        action = a;
    }
    assert!(matches!(action, CreateAction::Finish(Ok(()))));
    let idx = load_index("hello".to_string(), committed, store()).unwrap();
    let mut ids = Vec::new();
    for doc in ["hello world", "hello pipe", "nba"] {
        let text = Text { texts: vec![doc.to_string()], metadata: Attributes::new() };
        let chunks = idx.split_batch(&text);
        assert_eq!(chunks, vec![doc.to_string()]);
        let recs = idx.records_for(&chunks, &text.metadata);
        assert_eq!(recs.len(), 1);
        assert_eq!(recs[0].text, doc);
        ids.push(recs[0].id.clone());
    }
    assert_ne!(ids[0], ids[1]);
    assert_ne!(ids[1], ids[2]);
    assert_eq!(ids[0], "5eb63bbbe01eeed093cb22bb8f5acdc3");
}

#[test]
fn created_index_loads_back_with_dedup_fields() {
    let params = CreateIndexParams {
        name: "idempotency-index".to_string(),
        vector_dim: 2,
        metric: MetricKind::Cosine,
        unique_params: Some(vec!["user_id".to_string(), "url \"quoted\"".to_string()]),
    };
    let kind = TextSplitterKind::Noop;
    let def = new_index_definition(&params, "m".to_string(), kind.name(), &store()).unwrap();
    let idx = load_index("idempotency-index".to_string(), Some(def), store()).unwrap();
    assert_eq!(idx.name, "idempotency-index");
    assert_eq!(idx.embedding_model, "m");
    assert_eq!(idx.text_splitter, kind);
    assert_eq!(idx.hash_on, params.unique_params.unwrap());
}
