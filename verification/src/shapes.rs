//! The flat result shapes and how the engine's results are laid out in them.
//!
//! Each shape is a counted buffer: the elements and their number. Ownership
//! of a shape passes to the caller as a whole and comes back, once, through
//! the release function of that shape.

use vstd::prelude::*;
use vstd::string::*;
use crate::engine::{RerankResult, SparseEmbedding};

verus! {

/// One dense vector: its numbers, each as the bit pattern of an IEEE-754
/// single, and how many there are.
pub struct FloatArray {
    pub data: Vec<u32>,
    pub len: usize,
}

impl View for FloatArray {
    type V = Seq<u32>;

    open spec fn view(&self) -> Seq<u32> {
        self.data@
    }
}

impl FloatArray {
    /// The count is that of the numbers held.
    pub open spec fn wf(&self) -> bool {
        self.len == self.data@.len()
    }

    /// Lays out one vector of the engine.
    pub fn from_embedding(embedding: Vec<u32>) -> (array: FloatArray)
        ensures
            array@ == embedding@,
            array.wf(),
    {
        let len = embedding.len();
        FloatArray { data: embedding, len }
    }
}

/// One dense vector per input item.
pub struct FloatArrayVec {
    pub arrays: Vec<FloatArray>,
    pub len: usize,
}

impl View for FloatArrayVec {
    type V = Seq<Seq<u32>>;

    open spec fn view(&self) -> Seq<Seq<u32>> {
        Seq::new(self.arrays@.len(), |i: int| self.arrays@[i]@)
    }
}

/// The vectors that the engine returned, as plain sequences.
pub open spec fn rows_of(embeddings: Seq<Vec<u32>>) -> Seq<Seq<u32>> {
    Seq::new(embeddings.len(), |i: int| embeddings[i]@)
}

impl FloatArrayVec {
    /// The count is that of the vectors held, and each vector is well formed.
    pub open spec fn wf(&self) -> bool {
        &&& self.len == self.arrays@.len()
        &&& forall|i: int| 0 <= i < self.arrays@.len() ==> (#[trigger] self.arrays@[i]).wf()
    }

    /// Lays out the engine's vectors, one array each, in the engine's order.
    pub fn from_embeddings(embeddings: Vec<Vec<u32>>) -> (vec: Box<FloatArrayVec>)
        ensures
            vec@ == rows_of(embeddings@),
            vec.wf(),
    {
        let ghost rows = rows_of(embeddings@);
        let mut arrays: Vec<FloatArray> = Vec::new();
        for embedding in it: embeddings.into_iter()
            invariant
                rows_of(it.seq()) == rows,
                arrays.len() == it.index(),
                forall|j: int| 0 <= j < arrays.len() ==> (#[trigger] arrays@[j])@ == rows[j],
                forall|j: int| 0 <= j < arrays.len() ==> (#[trigger] arrays@[j]).wf(),
        {
            assert(rows[it.index() as int] == it.seq()[it.index() as int]@);
            arrays.push(FloatArray::from_embedding(embedding));
        }
        let len = arrays.len();
        let vec = Box::new(FloatArrayVec { arrays, len });
        assert(vec@ =~= rows);
        vec
    }
}

/// Releases the arrays of a result and the result itself, and says how many
/// arrays went. Nothing happens on `None`.
pub fn fastembed_float_array_vec_free(vec: Option<Box<FloatArrayVec>>) -> (released: usize)
    ensures
        released == match vec {
            Some(v) => v.arrays@.len(),
            None => 0,
        },
{
    match vec {
        None => 0,
        Some(v) => {
            let FloatArrayVec { arrays, len: _ } = *v;
            let total = arrays.len();
            let mut released: usize = 0;
            for array in it: arrays.into_iter()
                invariant
                    it.seq().len() == total,
                    released == it.index(),
            {
                let FloatArray { data, len: _ } = array;
                let _ = data;
                released += 1;
            }
            released
        },
    }
}

/// One sparse embedding: the places that carry weight, the weight at each as
/// a bit pattern, and how many pairs there are.
pub struct SparseEmbeddingC {
    pub indices: Vec<usize>,
    pub values: Vec<u32>,
    pub len: usize,
}

/// What a sparse embedding holds.
pub struct SparseView {
    pub indices: Seq<usize>,
    pub values: Seq<u32>,
}

impl View for SparseEmbeddingC {
    type V = SparseView;

    open spec fn view(&self) -> SparseView {
        SparseView { indices: self.indices@, values: self.values@ }
    }
}

/// What one sparse embedding of the engine holds.
pub open spec fn sparse_of(embedding: SparseEmbedding) -> SparseView {
    SparseView { indices: embedding.indices@, values: embedding.values@ }
}

/// Every embedding has one weight for each place.
pub open spec fn all_paired(embeddings: Seq<SparseEmbedding>) -> bool {
    forall|i: int| 0 <= i < embeddings.len() ==> (#[trigger] embeddings[i]).wf()
}

/// What the sparse embeddings of the engine hold, in the engine's order.
pub open spec fn sparse_rows_of(embeddings: Seq<SparseEmbedding>) -> Seq<SparseView> {
    Seq::new(embeddings.len(), |i: int| sparse_of(embeddings[i]))
}

impl SparseEmbeddingC {
    /// The count is that of the places and that of the weights.
    pub open spec fn wf(&self) -> bool {
        &&& self.len == self.indices@.len()
        &&& self.len == self.values@.len()
    }

    /// Lays out one sparse embedding of the engine: its places and its
    /// weights side by side, counted by the places. The entry is well formed
    /// exactly if the engine gave one weight for each place.
    pub fn from_embedding(embedding: SparseEmbedding) -> (entry: SparseEmbeddingC)
        ensures
            entry@ == sparse_of(embedding),
            entry.len == embedding.indices@.len(),
            entry.wf() <==> embedding.wf(),
    {
        let SparseEmbedding { indices, values } = embedding;
        let len = indices.len();
        SparseEmbeddingC { indices, values, len }
    }
}

/// One sparse embedding per input item.
pub struct SparseEmbeddingVec {
    pub embeddings: Vec<SparseEmbeddingC>,
    pub len: usize,
}

impl View for SparseEmbeddingVec {
    type V = Seq<SparseView>;

    open spec fn view(&self) -> Seq<SparseView> {
        Seq::new(self.embeddings@.len(), |i: int| self.embeddings@[i]@)
    }
}

impl SparseEmbeddingVec {
    /// The count is that of the embeddings held, and each is well formed.
    pub open spec fn wf(&self) -> bool {
        &&& self.len == self.embeddings@.len()
        &&& forall|i: int|
            0 <= i < self.embeddings@.len() ==> (#[trigger] self.embeddings@[i]).wf()
    }

    /// Lays out the engine's sparse embeddings, one entry each, in the
    /// engine's order. The result is well formed if the engine paired every
    /// place with a weight.
    pub fn from_embeddings(embeddings: Vec<SparseEmbedding>) -> (vec: Box<SparseEmbeddingVec>)
        ensures
            vec@ == sparse_rows_of(embeddings@),
            vec.len == embeddings@.len(),
            all_paired(embeddings@) ==> vec.wf(),
    {
        let ghost given = embeddings@;
        let ghost rows = sparse_rows_of(embeddings@);
        let mut entries: Vec<SparseEmbeddingC> = Vec::new();
        for embedding in it: embeddings.into_iter()
            invariant
                it.seq() == given,
                rows == sparse_rows_of(given),
                entries.len() == it.index(),
                forall|j: int| 0 <= j < entries.len() ==> (#[trigger] entries@[j])@ == rows[j],
                forall|j: int|
                    0 <= j < entries.len() ==> ((#[trigger] entries@[j]).wf() <==> given[j].wf()),
        {
            assert(rows[it.index() as int] == sparse_of(given[it.index() as int]));
            entries.push(SparseEmbeddingC::from_embedding(embedding));
        }
        let len = entries.len();
        let vec = Box::new(SparseEmbeddingVec { embeddings: entries, len });
        assert(vec@ =~= rows);
        vec
    }
}

/// Releases the places and weights of every entry, the entries and the
/// result itself, and says how many entries went. Nothing happens on `None`.
pub fn fastembed_sparse_embedding_vec_free(vec: Option<Box<SparseEmbeddingVec>>) -> (released:
    usize)
    ensures
        released == match vec {
            Some(v) => v.embeddings@.len(),
            None => 0,
        },
{
    match vec {
        None => 0,
        Some(v) => {
            let SparseEmbeddingVec { embeddings, len: _ } = *v;
            let total = embeddings.len();
            let mut released: usize = 0;
            for entry in it: embeddings.into_iter()
                invariant
                    it.seq().len() == total,
                    released == it.index(),
            {
                let SparseEmbeddingC { indices, values, len: _ } = entry;
                let _ = indices;
                let _ = values;
                released += 1;
            }
            released
        },
    }
}

/// One ranked document: where it stood in the input, its score as a bit
/// pattern, and a copy of its text, or none where texts were not asked for.
pub struct RerankResultC {
    pub index: usize,
    pub score: u32,
    pub document: Option<String>,
}

/// What a ranked document says.
pub struct RerankView {
    pub index: usize,
    pub score: u32,
    pub document: Option<Seq<char>>,
}

/// The text of an optional string.
pub open spec fn text_of(text: Option<String>) -> Option<Seq<char>> {
    match text {
        Some(t) => Some(t@),
        None => None,
    }
}

impl View for RerankResultC {
    type V = RerankView;

    open spec fn view(&self) -> RerankView {
        RerankView { index: self.index, score: self.score, document: text_of(self.document) }
    }
}

/// What one ranked document of the engine says.
pub open spec fn record_of(result: RerankResult) -> RerankView {
    RerankView { index: result.index, score: result.score, document: text_of(result.document) }
}

/// What the ranked documents of the engine say, in the engine's order.
pub open spec fn records_of(results: Seq<RerankResult>) -> Seq<RerankView> {
    Seq::new(results.len(), |i: int| record_of(results[i]))
}

impl RerankResultC {
    /// Lays out one ranked document of the engine. The text, where the
    /// engine gave one, goes into the record; where it gave none, the record
    /// has none.
    pub fn from_result(result: RerankResult) -> (record: RerankResultC)
        ensures
            record@ == record_of(result),
    {
        let RerankResult { index, score, document } = result;
        RerankResultC { index, score, document }
    }
}

/// The ranked documents of one call, best first as the engine ranked them.
pub struct RerankResultVec {
    pub results: Vec<RerankResultC>,
    pub len: usize,
}

impl View for RerankResultVec {
    type V = Seq<RerankView>;

    open spec fn view(&self) -> Seq<RerankView> {
        Seq::new(self.results@.len(), |i: int| self.results@[i]@)
    }
}

impl RerankResultVec {
    /// The count is that of the records held.
    pub open spec fn wf(&self) -> bool {
        self.len == self.results@.len()
    }

    /// Lays out the engine's ranked documents, one record each, in the
    /// engine's order.
    pub fn from_results(results: Vec<RerankResult>) -> (vec: Box<RerankResultVec>)
        ensures
            vec@ == records_of(results@),
            vec.wf(),
    {
        let ghost rows = records_of(results@);
        let mut records: Vec<RerankResultC> = Vec::new();
        for result in it: results.into_iter()
            invariant
                records_of(it.seq()) == rows,
                records.len() == it.index(),
                forall|j: int| 0 <= j < records.len() ==> (#[trigger] records@[j])@ == rows[j],
        {
            assert(rows[it.index() as int] == record_of(it.seq()[it.index() as int]));
            records.push(RerankResultC::from_result(result));
        }
        let len = records.len();
        let vec = Box::new(RerankResultVec { results: records, len });
        assert(vec@ =~= rows);
        vec
    }
}

/// Releases the text of every record that has one, the records and the
/// result itself, and says how many records went. Nothing happens on `None`.
pub fn fastembed_rerank_result_vec_free(vec: Option<Box<RerankResultVec>>) -> (released: usize)
    ensures
        released == match vec {
            Some(v) => v.results@.len(),
            None => 0,
        },
{
    match vec {
        None => 0,
        Some(v) => {
            let RerankResultVec { results, len: _ } = *v;
            let total = results.len();
            let mut released: usize = 0;
            for record in it: results.into_iter()
                invariant
                    it.seq().len() == total,
                    released == it.index(),
            {
                let RerankResultC { index: _, score: _, document } = record;
                match document {
                    Some(text) => {
                        let _ = text;
                    },
                    None => {},
                }
                released += 1;
            }
            released
        },
    }
}

} // verus!
