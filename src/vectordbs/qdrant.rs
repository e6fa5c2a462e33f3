//! The Qdrant backend: what it decides from the server's answers. The network
//! calls themselves are made by the caller, which hands the answers in.
use vstd::prelude::*;
use vstd::string::{StrSliceExecFns, StringExecFns};

use crate::attributes::Attributes;
use crate::vectordbs::{SearchResult, VectorDbError, qdrant_backend_name};

verus! {

/// Where the Qdrant server listens.
#[derive(Clone, Debug)]
pub struct QdrantConfig {
    pub addr: String,
}

/// A Qdrant backend bound to one server.
#[derive(Clone)]
pub struct QdrantDb {
    qdrant_config: QdrantConfig,
}

/// What a Qdrant point stores besides its vector.
pub struct QdrantPayload {
    pub text: String,
    pub chunk: u64,
    pub metadata: Attributes,
}

impl QdrantPayload {
    /// The search hit that this stored payload stands for.
    pub fn into_search_result(self) -> (r: SearchResult)
        ensures
            r.texts == self.text,
            r.metadata@ == self.metadata@,
    {
        SearchResult { texts: self.text, metadata: self.metadata }
    }
}

/// `pat` occurs in `s` as a contiguous run.
pub open spec fn contains_seq(s: Seq<char>, pat: Seq<char>) -> bool {
    exists|i: int| 0 <= i && i + pat.len() <= s.len() && #[trigger] s.subrange(i, i + pat.len()) == pat
}

/// Whether `pat` occurs in `s`.
fn text_contains(s: &str, pat: &str) -> (r: bool)
    ensures
        r == contains_seq(s@, pat@),
{
    let n = s.unicode_len();
    let m = pat.unicode_len();
    if m > n {
        proof {
            assert forall|i: int| 0 <= i && i + pat@.len() <= s@.len() implies
                #[trigger] s@.subrange(i, i + pat@.len()) != pat@ by {}
        }
        return false;
    }
    let mut i: usize = 0;
    while i <= n - m
        invariant
            n == s@.len(),
            m == pat@.len(),
            m <= n,
            i <= n - m + 1,
            forall|k: int| 0 <= k < i ==> #[trigger] s@.subrange(k, k + m) != pat@,
        decreases n - m + 1 - i,
    {
        let mut j: usize = 0;
        let mut same = true;
        while j < m
            invariant
                n == s@.len(),
                m == pat@.len(),
                i + m <= n,
                j <= m,
                same == (forall|t: int| 0 <= t < j ==> s@[i + t] == pat@[t]),
            decreases m - j,
        {
            if s.get_char(i + j) != pat.get_char(j) {
                same = false;
            }
            j = j + 1;
        }
        if same {
            assert(s@.subrange(i as int, i + m) =~= pat@);
            return true;
        }
        proof {
            if s@.subrange(i as int, i + m) == pat@ {
                assert forall|t: int| 0 <= t < m implies s@[i + t] == pat@[t] by {
                    assert(s@.subrange(i as int, i + m)[t] == s@[i + t]);
                }
            }
        }
        i = i + 1;
    }
    proof {
        assert forall|k: int| 0 <= k && k + pat@.len() <= s@.len() implies
            #[trigger] s@.subrange(k, k + pat@.len()) != pat@ by {
            assert(k < i);
        }
    }
    false
}

/// What Qdrant says when a collection to delete does not exist.
pub open spec fn missing_collection_marker() -> Seq<char> {
    "doesn't exist"@
}

impl QdrantDb {
    /// The server this backend talks to.
    pub closed spec fn config(&self) -> QdrantConfig {
        self.qdrant_config
    }

    /// A backend for the server of `config`.
    pub fn new(config: QdrantConfig) -> (r: QdrantDb)
        ensures
            r.config() == config,
    {
        QdrantDb { qdrant_config: config }
    }

    /// The address of the server.
    pub fn addr(&self) -> (r: &String)
        ensures
            r == self.config().addr,
    {
        &self.qdrant_config.addr
    }

    /// The name under which this backend is recorded in the catalog.
    pub fn name(&self) -> (r: String)
        ensures
            r@ == qdrant_backend_name(),
    {
        <String as StringExecFns>::from_str("qdrant")
    }

    /// The outcome of dropping collection `index`, given the server's error
    /// message if the delete call failed. A collection that does not exist
    /// counts as dropped.
    pub fn drop_outcome(index: String, failure: Option<String>) -> (r: Result<(), VectorDbError>)
        ensures
            match failure {
                None => r is Ok,
                Some(msg) => if contains_seq(msg@, missing_collection_marker()) {
                    r is Ok
                } else {
                    r matches Err(VectorDbError::IndexDeletionError(i, m)) && i == index && m == msg
                },
            },
    {
        match failure {
            None => Ok(()),
            Some(msg) => {
                if text_contains(msg.as_str(), "doesn't exist") {
                    Ok(())
                } else {
                    Err(VectorDbError::IndexDeletionError(index, msg))
                }
            },
        }
    }

    /// The record count of a collection, given the points count that the
    /// server's collection info holds, if it holds one.
    pub fn count_outcome(points_count: Option<u64>) -> (r: Result<u64, VectorDbError>)
        ensures
            match points_count {
                Some(n) => r == Ok::<u64, VectorDbError>(n),
                None => r matches Err(VectorDbError::IndexReadError(_)),
            },
    {
        match points_count {
            Some(n) => Ok(n),
            None => Err(VectorDbError::IndexReadError(<String as StringExecFns>::from_str("index not found"))),
        }
    }
}

} // verus!
