//! The vector-store interface shared by every backend: collection parameters,
//! errors, the records an upsert writes, and the closed set of backends.
use vstd::prelude::*;
use vstd::string::StringExecFns;

use crate::attributes::Attributes;
use crate::hashing::{
    agree_on, content_id, dedup_key, hash_input, lemma_dedup_key_agrees, md5_hex_of, record_id, string_views,
};

pub mod qdrant;

pub use qdrant::{QdrantConfig, QdrantDb};

verus! {

/// How vectors of a collection are compared.
#[derive(Clone, Copy, Debug, PartialEq, Eq, Structural)]
pub enum MetricKind {
    Dot,
    Euclidean,
    Cosine,
}

/// What a collection is created with.
#[derive(Clone, Debug)]
pub struct CreateIndexParams {
    pub name: String,
    pub vector_dim: u64,
    pub metric: MetricKind,
    /// The dedup fields of the index, if any.
    pub unique_params: Option<Vec<String>>,
}

/// Failures reported by a vector-store backend.
#[derive(Clone, Debug)]
pub enum VectorDbError {
    /// The collection (first) could not be dropped; the backend said (second).
    IndexDeletionError(String, String),
    ConfigNotPresent,
    IndexCreationError(String),
    IndexWriteError(String),
    IndexReadError(String),
}

/// One hit of a similarity search.
pub struct SearchResult {
    pub texts: String,
    pub metadata: Attributes,
}

/// The kinds of vector-store backend a deployment can be configured with.
#[derive(Clone, Copy, Debug, PartialEq, Eq, Structural)]
pub enum IndexStoreKind {
    Qdrant,
}

/// Process-wide configuration of the index feature.
#[derive(Clone, Debug)]
pub struct VectorIndexConfig {
    pub index_store: IndexStoreKind,
    pub qdrant_config: Option<QdrantConfig>,
    pub db_url: String,
}

/// A configured vector-store backend.
#[derive(Clone)]
pub enum VectorStore {
    Qdrant(QdrantDb),
}

/// The name under which the Qdrant backend is recorded in the catalog.
pub open spec fn qdrant_backend_name() -> Seq<char> {
    "qdrant"@
}

impl VectorStore {
    /// The name of this backend, as recorded in the catalog.
    pub open spec fn spec_name(&self) -> Seq<char> {
        match self {
            VectorStore::Qdrant(_) => qdrant_backend_name(),
        }
    }

    /// The name of this backend, as recorded in the catalog.
    pub fn name(&self) -> (r: String)
        ensures
            r@ == self.spec_name(),
    {
        match self {
            VectorStore::Qdrant(db) => db.name(),
        }
    }
}

/// Selects the backend that `config` asks for.
pub fn create_vectordb(config: VectorIndexConfig) -> (r: Result<VectorStore, VectorDbError>)
    ensures
        match config.qdrant_config {
            Some(c) => r matches Ok(VectorStore::Qdrant(db)) && db.config() == c,
            None => r matches Err(VectorDbError::ConfigNotPresent),
        },
{
    match config.index_store {
        IndexStoreKind::Qdrant => match config.qdrant_config {
            Some(c) => Ok(VectorStore::Qdrant(QdrantDb::new(c))),
            None => Err(VectorDbError::ConfigNotPresent),
        },
    }
}

/// One record of an upsert: its content-addressed id, its chunk text and the
/// chunk's position within the batch. Its embedding is the one at the same
/// position in the batch's embeddings.
pub struct Record {
    pub id: String,
    pub text: String,
    pub chunk: u64,
}

impl View for Record {
    type V = (Seq<char>, Seq<char>, u64);

    open spec fn view(&self) -> (Seq<char>, Seq<char>, u64) {
        (self.id@, self.text@, self.chunk)
    }
}

/// The views of a sequence of records.
pub open spec fn records_view(s: Seq<Record>) -> Seq<(Seq<char>, Seq<char>, u64)> {
    s.map_values(|rec: Record| rec@)
}

/// The records that an upsert of `texts` carrying `attrs` writes, one per text.
pub open spec fn planned_records(
    fields: Seq<Seq<char>>,
    attrs: Map<Seq<char>, Seq<char>>,
    texts: Seq<Seq<char>>,
) -> Seq<(Seq<char>, Seq<char>, u64)> {
    Seq::new(texts.len(), |i: int| (record_id(fields, attrs, texts[i]), texts[i], i as u64))
}

/// A collection after upserting `recs` in order into `coll`: each record
/// replaces whatever was stored under its id.
pub open spec fn upsert_all(
    coll: Map<Seq<char>, (Seq<char>, u64)>,
    recs: Seq<(Seq<char>, Seq<char>, u64)>,
) -> Map<Seq<char>, (Seq<char>, u64)>
    decreases recs.len(),
{
    if recs.len() == 0 {
        coll
    } else {
        upsert_all(coll, recs.drop_last()).insert(recs.last().0, (recs.last().1, recs.last().2))
    }
}

/// The records for one upsert call: texts[i] becomes the record at position i,
/// identified under the dedup fields `hash_on`.
pub fn build_records(texts: &Vec<String>, attrs: &Attributes, hash_on: &Vec<String>) -> (r: Vec<Record>)
    ensures
        records_view(r@) == planned_records(
            string_views(hash_on@),
            attrs@,
            string_views(texts@),
        ),
{
    let ghost want = planned_records(string_views(hash_on@), attrs@, string_views(texts@));
    let mut r: Vec<Record> = Vec::new();
    let mut i: usize = 0;
    while i < texts.len()
        invariant
            i <= texts@.len(),
            want == planned_records(string_views(hash_on@), attrs@, string_views(texts@)),
            records_view(r@) =~= want.subrange(0, i as int),
        decreases texts@.len() - i,
    {
        let text = &texts[i];
        let id = content_id(hash_on, attrs, text);
        let ghost prev = r@;
        assert(records_view(prev).len() == prev.len());
        assert(prev.len() == i);
        r.push(Record { id, text: text.clone(), chunk: i as u64 });
        assert(string_views(texts@)[i as int] == texts@[i as int]@);
        assert(r@[i as int]@ == want[i as int]);
        assert(records_view(r@) =~= want.subrange(0, i + 1));
        i = i + 1;
    }
    r
}

/// With dedup fields, the chunk text plays no part in a record's id: every
/// record of a batch carries the same id, so the batch's chunks overwrite one
/// another.
pub proof fn lemma_batch_shares_one_id(
    fields: Seq<Seq<char>>,
    attrs: Map<Seq<char>, Seq<char>>,
    texts: Seq<Seq<char>>,
)
    requires
        fields.len() > 0,
    ensures
        forall|i: int|
            0 <= i < texts.len() ==> #[trigger] planned_records(fields, attrs, texts)[i].0
                == md5_hex_of(dedup_key(fields, attrs)),
{
}

/// Ingesting one chunk and then another whose attributes hold the same values
/// for every (non-empty list of) dedup fields leaves a single record in an
/// empty collection: the second one, whatever the two texts are.
pub proof fn lemma_same_dedup_values_keep_one_record(
    fields: Seq<Seq<char>>,
    attrs1: Map<Seq<char>, Seq<char>>,
    text1: Seq<char>,
    attrs2: Map<Seq<char>, Seq<char>>,
    text2: Seq<char>,
)
    requires
        fields.len() > 0,
        agree_on(fields, attrs1, attrs2),
    ensures
        ({
            let id = record_id(fields, attrs2, text2);
            let coll = upsert_all(
                upsert_all(Map::empty(), planned_records(fields, attrs1, seq![text1])),
                planned_records(fields, attrs2, seq![text2]),
            );
            &&& coll.len() == 1
            &&& coll.dom() == set![id]
            &&& coll[id] == (text2, 0u64)
        }),
{
    lemma_dedup_key_agrees(fields, attrs1, attrs2);
    let id = record_id(fields, attrs2, text2);
    let r1 = planned_records(fields, attrs1, seq![text1]);
    let r2 = planned_records(fields, attrs2, seq![text2]);
    assert(r1.drop_last().len() == 0);
    assert(r2.drop_last().len() == 0);
    assert(r1.last() == (id, text1, 0u64));
    assert(r2.last() == (id, text2, 0u64));
    assert(upsert_all(Map::empty(), r1.drop_last()) == Map::<Seq<char>, (Seq<char>, u64)>::empty());
    let c1 = upsert_all(Map::empty(), r1);
    assert(c1 == Map::<Seq<char>, (Seq<char>, u64)>::empty().insert(id, (text1, 0u64)));
    assert(upsert_all(c1, r2.drop_last()) == c1);
    let coll = upsert_all(c1, r2);
    assert(coll == c1.insert(id, (text2, 0u64)));
    assert(coll.dom() =~= set![id]);
    assert(coll.dom().len() == 1);
}

/// Without dedup fields a chunk is identified by its text alone: different
/// texts are hashed from different inputs, and when their digests differ an
/// empty collection ends up holding both records.
pub proof fn lemma_texts_identify_records_without_dedup_fields(
    attrs1: Map<Seq<char>, Seq<char>>,
    text1: Seq<char>,
    attrs2: Map<Seq<char>, Seq<char>>,
    text2: Seq<char>,
)
    requires
        text1 != text2,
    ensures
        hash_input(Seq::empty(), attrs1, text1) == text1,
        hash_input(Seq::empty(), attrs2, text2) == text2,
        record_id(Seq::empty(), attrs1, text1) == md5_hex_of(text1),
        md5_hex_of(text1) != md5_hex_of(text2) ==> ({
            let coll = upsert_all(
                upsert_all(Map::empty(), planned_records(Seq::empty(), attrs1, seq![text1])),
                planned_records(Seq::empty(), attrs2, seq![text2]),
            );
            &&& coll.len() == 2
            &&& coll[md5_hex_of(text1)] == (text1, 0u64)
            &&& coll[md5_hex_of(text2)] == (text2, 0u64)
        }),
{
    let fields = Seq::<Seq<char>>::empty();
    let r1 = planned_records(fields, attrs1, seq![text1]);
    let r2 = planned_records(fields, attrs2, seq![text2]);
    assert(r1.drop_last().len() == 0);
    assert(r2.drop_last().len() == 0);
    let id1 = md5_hex_of(text1);
    let id2 = md5_hex_of(text2);
    assert(r1.last() == (id1, text1, 0u64));
    assert(r2.last() == (id2, text2, 0u64));
    if id1 != id2 {
        assert(upsert_all(Map::empty(), r1.drop_last()) == Map::<Seq<char>, (Seq<char>, u64)>::empty());
        let c1 = upsert_all(Map::empty(), r1);
        assert(c1 == Map::<Seq<char>, (Seq<char>, u64)>::empty().insert(id1, (text1, 0u64)));
        assert(upsert_all(c1, r2.drop_last()) == c1);
        let coll = upsert_all(c1, r2);
        assert(coll == c1.insert(id2, (text2, 0u64)));
        assert(coll.dom() =~= set![id1].insert(id2));
        assert(coll.dom().len() == 2);
    }
}

} // verus!
