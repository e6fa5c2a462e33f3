//! Index management core: a catalog of index definitions created atomically
//! together with their vector-store collections, content-addressed records
//! that make repeated ingestion idempotent, and the vector-store backends that
//! hold those records.

pub mod attributes;
pub mod hashing;
pub mod index;
pub mod persistence;
pub mod vectordbs;

pub use attributes::Attributes;
pub use hashing::{content_id, dedup_input};
pub use index::{load_index, index_from_definition, Index, IndexError, Text, TextSplitterKind};
pub use persistence::{
    index_from_lookup, new_index_definition, CreateAction, CreateEvent, CreateIndexProtocol,
    CreatePhase, IndexDefinition, RespositoryError,
};
pub use vectordbs::qdrant::QdrantPayload;
pub use vectordbs::{
    build_records, create_vectordb, CreateIndexParams, IndexStoreKind, MetricKind, QdrantConfig,
    QdrantDb, Record, SearchResult, VectorDbError, VectorIndexConfig, VectorStore,
};

