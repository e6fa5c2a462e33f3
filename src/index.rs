//! Index runtime handles: what an index is bound to, how a batch of texts
//! becomes records, and how a catalog row becomes a handle.
use vstd::prelude::*;
use vstd::string::StringExecFns;

use crate::attributes::Attributes;
use crate::hashing::string_views;
use crate::persistence::{
    fields_from_json, index_from_lookup, recorded_fields, IndexDefinition, RespositoryError,
};
use crate::vectordbs::{build_records, planned_records, records_view, Record, VectorDbError, VectorStore};

verus! {

/// A batch of documents sharing one set of attributes.
pub struct Text {
    pub texts: Vec<String>,
    pub metadata: Attributes,
}

/// Failures of index management.
#[derive(Debug)]
pub enum IndexError {
    /// The embedding service failed; it said this.
    EmbeddingGenerator(String),
    VectorDb(VectorDbError),
    Persistence(RespositoryError),
    /// The text splitter failed; it said this.
    TextSplitter(String),
    UniqueParamsSerializationError(serde_json::Error),
    LogicError(String),
}

/// The ways a document can be cut into chunks.
#[derive(Clone, Copy, Debug, PartialEq, Eq, Structural)]
pub enum TextSplitterKind {
    /// The whole document is one chunk.
    Noop,
}

/// The name under which a splitter kind is recorded in the catalog.
pub open spec fn splitter_name(kind: TextSplitterKind) -> Seq<char> {
    match kind {
        TextSplitterKind::Noop => "noop"@,
    }
}

/// The splitter kind recorded under `name`, if any.
pub open spec fn splitter_of_name(name: Seq<char>) -> Option<TextSplitterKind> {
    if name == "noop"@ {
        Some(TextSplitterKind::Noop)
    } else {
        None
    }
}

/// The chunks that `kind` cuts `doc` into.
pub open spec fn split_spec(kind: TextSplitterKind, doc: Seq<char>) -> Seq<Seq<char>> {
    match kind {
        TextSplitterKind::Noop => seq![doc],
    }
}

/// The chunks of all of `docs`, document after document.
pub open spec fn chunks_spec(kind: TextSplitterKind, docs: Seq<Seq<char>>) -> Seq<Seq<char>>
    decreases docs.len(),
{
    if docs.len() == 0 {
        Seq::empty()
    } else {
        chunks_spec(kind, docs.drop_last()) + split_spec(kind, docs.last())
    }
}

impl TextSplitterKind {
    /// The name under which this kind is recorded in the catalog.
    pub fn name(&self) -> (r: String)
        ensures
            r@ == splitter_name(*self),
    {
        match self {
            TextSplitterKind::Noop => <String as StringExecFns>::from_str("noop"),
        }
    }

    /// The kind recorded under `name`; an unknown name is a logic error.
    pub fn from_name(name: &String) -> (r: Result<TextSplitterKind, IndexError>)
        ensures
            match splitter_of_name(name@) {
                Some(k) => r == Ok::<TextSplitterKind, IndexError>(k),
                None => r matches Err(IndexError::LogicError(_)),
            },
    {
        let noop = <String as StringExecFns>::from_str("noop");
        if *name == noop {
            Ok(TextSplitterKind::Noop)
        } else {
            let mut msg = <String as StringExecFns>::from_str("unknown text splitter: ");
            msg.append(name.as_str());
            Err(IndexError::LogicError(msg))
        }
    }

    /// Cuts `doc` into chunks of about `max_chunk_size` characters that overlap
    /// by `overlap` characters.
    pub fn split(&self, doc: &String, max_chunk_size: usize, overlap: usize) -> (r: Vec<String>)
        ensures
            string_views(r@) == split_spec(*self, doc@),
    {
        match self {
            TextSplitterKind::Noop => {
                let r = vec![doc.clone()];
                assert(string_views(r@) =~= seq![doc@]);
                r
            },
        }
    }
}

/// The chunk size that ingestion asks the splitter for.
pub const CHUNK_SIZE: usize = 1000;

/// The overlap between chunks that ingestion asks the splitter for.
pub const CHUNK_OVERLAP: usize = 0;

/// A handle on one index of the catalog.
pub struct Index {
    pub name: String,
    pub vectordb: VectorStore,
    pub embedding_model: String,
    pub text_splitter: TextSplitterKind,
    /// The dedup fields: the attributes whose values identify a record.
    pub hash_on: Vec<String>,
}

impl Index {
    /// A handle on index `name`.
    pub fn new(
        name: String,
        vectordb: VectorStore,
        embedding_model: String,
        text_splitter: TextSplitterKind,
        hash_on: Vec<String>,
    ) -> (r: Index)
        ensures
            r.name == name,
            r.vectordb == vectordb,
            r.embedding_model == embedding_model,
            r.text_splitter == text_splitter,
            r.hash_on == hash_on,
    {
        Index { name, vectordb, embedding_model, text_splitter, hash_on }
    }

    /// The chunks of a batch: each document cut by the index's splitter, in order.
    pub fn split_batch(&self, text: &Text) -> (r: Vec<String>)
        ensures
            string_views(r@) == chunks_spec(self.text_splitter, string_views(text.texts@)),
    {
        let ghost docs = string_views(text.texts@);
        let mut r: Vec<String> = Vec::new();
        let mut i: usize = 0;
        while i < text.texts.len()
            invariant
                i <= text.texts@.len(),
                docs == string_views(text.texts@),
                string_views(r@) == chunks_spec(self.text_splitter, docs.subrange(0, i as int)),
            decreases text.texts@.len() - i,
        {
            let mut chunks = self.text_splitter.split(&text.texts[i], CHUNK_SIZE, CHUNK_OVERLAP);
            let ghost before = r@;
            let ghost added = chunks@;
            r.append(&mut chunks);
            proof {
                assert(docs.subrange(0, i + 1).drop_last() =~= docs.subrange(0, i as int));
                assert(docs.subrange(0, i + 1).last() == text.texts@[i as int]@);
                assert(string_views(r@) =~= string_views(before) + string_views(added));
            }
            i = i + 1;
        }
        assert(docs.subrange(0, i as int) =~= docs);
        r
    }

    /// The records that ingesting a batch writes, given the batch's chunks:
    /// one per chunk, in order, identified under the index's dedup fields.
    pub fn records_for(&self, chunks: &Vec<String>, metadata: &Attributes) -> (r: Vec<Record>)
        ensures
            records_view(r@) == planned_records(
                string_views(self.hash_on@),
                metadata@,
                string_views(chunks@),
            ),
    {
        build_records(chunks, metadata, &self.hash_on)
    }
}

/// Every splitter kind is read back from the name it is recorded under.
pub proof fn lemma_splitter_name_round_trip(kind: TextSplitterKind)
    ensures
        splitter_of_name(splitter_name(kind)) == Some(kind),
{
}

/// The handle for the index whose catalog row is `d`, on backend `vectordb`.
pub fn index_from_definition(d: IndexDefinition, vectordb: VectorStore) -> (r: Result<Index, IndexError>)
    ensures
        match recorded_fields(d) {
            None => r matches Err(IndexError::UniqueParamsSerializationError(_)),
            Some(fields) => match splitter_of_name(d.text_splitter@) {
                None => r matches Err(IndexError::LogicError(_)),
                Some(kind) => r matches Ok(idx) && {
                    &&& idx.name == d.name
                    &&& idx.vectordb == vectordb
                    &&& idx.embedding_model == d.embedding_model
                    &&& idx.text_splitter == kind
                    &&& string_views(idx.hash_on@) == fields
                },
            },
        },
{
    let hash_on = match &d.unique_params {
        Some(u) => match fields_from_json(u.as_str()) {
            Ok(v) => v,
            Err(e) => {
                return Err(IndexError::UniqueParamsSerializationError(e));
            },
        },
        None => {
            let v: Vec<String> = Vec::new();
            assert(string_views(v@) =~= Seq::<Seq<char>>::empty());
            v
        },
    };
    let kind = match TextSplitterKind::from_name(&d.text_splitter) {
        Ok(k) => k,
        Err(e) => {
            return Err(e);
        },
    };
    Ok(Index::new(d.name, vectordb, d.embedding_model, kind, hash_on))
}

/// The handle for index `name`, given the catalog row the store found for it.
pub fn load_index(name: String, found: Option<IndexDefinition>, vectordb: VectorStore) -> (r: Result<
    Index,
    IndexError,
>)
    ensures
        match found {
            None => r matches Err(IndexError::Persistence(RespositoryError::IndexNotFound(n))) && n
                == name,
            Some(d) => match recorded_fields(d) {
                None => r matches Err(IndexError::UniqueParamsSerializationError(_)),
                Some(fields) => match splitter_of_name(d.text_splitter@) {
                    None => r matches Err(IndexError::LogicError(_)),
                    Some(kind) => r matches Ok(idx) && {
                        &&& idx.name == d.name
                        &&& idx.vectordb == vectordb
                        &&& idx.embedding_model == d.embedding_model
                        &&& idx.text_splitter == kind
                        &&& string_views(idx.hash_on@) == fields
                    },
                },
            },
        },
{
    match index_from_lookup(name, found) {
        Ok(d) => index_from_definition(d, vectordb),
        Err(e) => Err(IndexError::Persistence(e)),
    }
}

} // verus!
