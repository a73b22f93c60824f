//! What the operations share: how a request is read before the engine sees
//! it, and how the engine's answer becomes the caller's.

use vstd::prelude::*;
use vstd::string::*;
use crate::error::{failure, null_argument_error, report, ErrorKind, ErrorView, FastEmbedError};
use crate::engine::{RerankResult, SparseEmbedding};
use crate::shapes::{
    all_paired, records_of, rows_of, sparse_rows_of, FloatArrayVec, RerankResultVec,
    SparseEmbeddingVec,
};
use crate::text::{
    decode_array, decode_array_result, decode_text, decode_text_result, foreign_array,
    lemma_empty_array_is_accepted, texts_of, TextRole,
};

verus! {

/// A foreign text as a plain value: its bytes, or nothing where the pointer
/// was null.
pub open spec fn foreign_text(text: Option<&[u8]>) -> Option<Seq<u8>> {
    match text {
        Some(bytes) => Some(bytes@),
        None => None,
    }
}

/// The batch size that the engine is given: the caller's, or none where the
/// caller wrote zero and leaves the choice to the engine.
pub open spec fn batch_choice(batch_size: usize) -> Option<usize> {
    if batch_size > 0 {
        Some(batch_size)
    } else {
        None
    }
}

/// Reads the batch size of a request. Any positive size is passed on as it
/// is.
pub fn batch_option(batch_size: usize) -> (batch: Option<usize>)
    ensures
        batch == batch_choice(batch_size),
{
    if batch_size > 0 {
        Some(batch_size)
    } else {
        None
    }
}

/// The identifier that a constructor works with: the default where the
/// caller gave none, else what the caller's bytes spell.
pub open spec fn identifier_result(name: Option<Seq<u8>>, default: Seq<char>) -> Result<
    Seq<char>,
    ErrorView,
> {
    match name {
        None => Ok(default),
        Some(bytes) => decode_text_result(bytes, TextRole::ModelName),
    }
}

/// Reads the model identifier of a constructor call.
pub fn model_identifier(model_name: Option<&[u8]>, default: &str) -> (r: Result<
    String,
    Box<FastEmbedError>,
>)
    ensures
        match r {
            Ok(name) => identifier_result(foreign_text(model_name), default@) == Ok::<
                Seq<char>,
                ErrorView,
            >(name@),
            Err(e) => identifier_result(foreign_text(model_name), default@) == Err::<
                Seq<char>,
                ErrorView,
            >(e@) && e.wf(),
        },
{
    match model_name {
        None => Ok(String::from_str(default)),
        Some(bytes) => decode_text(bytes, TextRole::ModelName),
    }
}

/// Passes a success on and words a failure for the caller: `prefix`, then
/// what the engine said.
pub fn or_failure<T>(result: Result<T, String>, kind: ErrorKind, prefix: &str) -> (r: Result<
    T,
    Box<FastEmbedError>,
>)
    ensures
        match result {
            Ok(value) => r == Ok::<T, Box<FastEmbedError>>(value),
            Err(detail) => r matches Err(e) && e@ == failure(kind, prefix@, detail@) && e.wf(),
        },
{
    match result {
        Ok(value) => Ok(value),
        Err(detail) => Err(FastEmbedError::with_detail(kind, prefix, detail.as_str())),
    }
}

/// The texts that an embedding call works with, or the error that the call
/// ends with before the engine is asked.
pub open spec fn embed_request(
    handle_present: bool,
    texts: Option<Seq<Option<Seq<u8>>>>,
    role: TextRole,
) -> Result<Seq<Seq<char>>, ErrorView> {
    if !handle_present || texts is None {
        Err(null_argument_error())
    } else {
        decode_array_result(texts.unwrap(), role)
    }
}

/// What an embedding engine is asked: the texts, and the batch size if the
/// caller chose one.
pub struct EmbedCall {
    pub texts: Vec<String>,
    pub batch_size: Option<usize>,
}

/// Reads an embedding request. A missing handle or array is reported first;
/// then the texts are decoded, and the first that cannot be ends the call.
pub fn read_embed_request(
    handle_present: bool,
    texts: Option<&[Option<&[u8]>]>,
    batch_size: usize,
    role: TextRole,
) -> (r: Result<EmbedCall, Box<FastEmbedError>>)
    ensures
        match r {
            Ok(call) => {
                &&& embed_request(handle_present, foreign_array(texts), role) == Ok::<
                    Seq<Seq<char>>,
                    ErrorView,
                >(texts_of(call.texts@))
                &&& call.batch_size == batch_choice(batch_size)
            },
            Err(e) => embed_request(handle_present, foreign_array(texts), role) == Err::<
                Seq<Seq<char>>,
                ErrorView,
            >(e@) && e.wf(),
        },
{
    let texts = match texts {
        Some(texts) if handle_present => texts,
        _ => {
            return Err(FastEmbedError::null_argument());
        },
    };
    match decode_array(texts, role) {
        Ok(texts) => Ok(EmbedCall { texts, batch_size: batch_option(batch_size) }),
        Err(e) => Err(e),
    }
}

/// A request with a live handle and an array without elements reaches the
/// engine: it asks for the embeddings of no texts.
pub proof fn lemma_empty_request_is_accepted(role: TextRole)
    ensures
        embed_request(true, Some(Seq::<Option<Seq<u8>>>::empty()), role) == Ok::<
            Seq<Seq<char>>,
            ErrorView,
        >(Seq::<Seq<char>>::empty()),
{
    lemma_empty_array_is_accepted(role);
}

/// Whether two texts are the same.
pub fn same_text(a: &str, b: &str) -> (same: bool)
    ensures
        same == (a@ == b@),
{
    String::from_str(a) == String::from_str(b)
}

/// What the caller gets for what a dense engine answered: the vectors laid
/// out in the engine's order, or the engine's complaint behind `prefix`.
pub fn dense_outcome(answer: Result<Vec<Vec<u32>>, String>, prefix: &str) -> (r: Result<
    Box<FloatArrayVec>,
    Box<FastEmbedError>,
>)
    ensures
        match answer {
            Ok(rows) => r matches Ok(vec) && vec@ == rows_of(rows@) && vec.wf(),
            Err(detail) => r matches Err(e) && e@ == failure(
                ErrorKind::InferenceFailure,
                prefix@,
                detail@,
            ) && e.wf(),
        },
{
    match or_failure(answer, ErrorKind::InferenceFailure, prefix) {
        Ok(rows) => Ok(FloatArrayVec::from_embeddings(rows)),
        Err(e) => Err(e),
    }
}

/// What the caller gets for what the sparse engine answered: the
/// embeddings laid out in the engine's order, well formed if the engine
/// paired every place with a weight, or the engine's complaint behind
/// "Sparse embedding failed: ".
pub fn sparse_outcome(answer: Result<Vec<SparseEmbedding>, String>) -> (r: Result<
    Box<SparseEmbeddingVec>,
    Box<FastEmbedError>,
>)
    ensures
        match answer {
            Ok(rows) => {
                &&& r matches Ok(vec)
                &&& vec@ == sparse_rows_of(rows@)
                &&& vec.len == rows@.len()
                &&& all_paired(rows@) ==> vec.wf()
            },
            Err(detail) => r matches Err(e) && e@ == failure(
                ErrorKind::InferenceFailure,
                "Sparse embedding failed: "@,
                detail@,
            ) && e.wf(),
        },
{
    match or_failure(answer, ErrorKind::InferenceFailure, "Sparse embedding failed: ") {
        Ok(rows) => Ok(SparseEmbeddingVec::from_embeddings(rows)),
        Err(e) => Err(e),
    }
}

/// What the caller gets for what the reranking engine answered: the
/// records laid out in the engine's order, or the engine's complaint behind
/// "Reranking failed: ".
pub fn rerank_outcome(answer: Result<Vec<RerankResult>, String>) -> (r: Result<
    Box<RerankResultVec>,
    Box<FastEmbedError>,
>)
    ensures
        match answer {
            Ok(records) => r matches Ok(vec) && vec@ == records_of(records@) && vec.wf(),
            Err(detail) => r matches Err(e) && e@ == failure(
                ErrorKind::InferenceFailure,
                "Reranking failed: "@,
                detail@,
            ) && e.wf(),
        },
{
    match or_failure(answer, ErrorKind::InferenceFailure, "Reranking failed: ") {
        Ok(records) => Ok(RerankResultVec::from_results(records)),
        Err(e) => Err(e),
    }
}

/// The slot holds an error that says `e`.
pub open spec fn holds_error(slot: Option<Box<FastEmbedError>>, e: ErrorView) -> bool {
    slot matches Some(held) && held@ == e && held.wf()
}

/// Ends a call in failure: the error goes to the caller's slot, if there is
/// one, and nothing is returned.
pub(crate) fn fail<T>(
    error: Option<&mut Option<Box<FastEmbedError>>>,
    e: Box<FastEmbedError>,
) -> (r: Option<T>)
    requires
        e.wf(),
    ensures
        r is None,
        error matches Some(slot) ==> holds_error(*final(slot), e@),
{
    report(error, e);
    None
}

} // verus!
