//! Sparse text embedding: the handle on a sparse embedding engine, and the
//! call that embeds texts.

use vstd::prelude::*;
use vstd::string::*;
use crate::engine::{
    engine_error_text, parse_sparse_model, sparse_engine_embed, sparse_engine_new,
    sparse_model_known,
};
use crate::error::{failure, ErrorKind, FastEmbedError};
use crate::request::{
    embed_request, fail, foreign_text, holds_error, identifier_result, model_identifier,
    or_failure, read_embed_request, sparse_outcome,
};
use crate::shapes::SparseEmbeddingVec;
use crate::text::{foreign_array, TextRole};

verus! {

/// A live sparse embedding engine. Whoever holds the handle owns the engine,
/// and a call through the handle has it to itself for as long as it runs.
pub struct SparseTextEmbeddingHandle(Box<fastembed::SparseTextEmbedding>);

/// Resolves the identifier of a sparse model. One that the engine does not know
/// is turned down, in the engine's words behind
/// "Invalid sparse model: ".
pub fn resolve_sparse_model(name: &str) -> (r: Result<
    fastembed::SparseModel,
    Box<FastEmbedError>,
>)
    ensures
        r is Ok <==> sparse_model_known(name@),
        r matches Err(e) ==> e@ == failure(
            ErrorKind::ModelResolutionFailure,
            "Invalid sparse model: "@,
            "Unknown sparse model: "@ + name@,
        ) && e.wf(),
{
    or_failure(
        parse_sparse_model(name),
        ErrorKind::ModelResolutionFailure,
        "Invalid sparse model: ",
    )
}

/// Sets up a sparse embedding engine for the model that `model_name`
/// spells, or for "Qdrant/Splade_PP_en_v1" where it is `None`.
///
/// An identifier that is not UTF-8 or that the engine does not know ends the
/// call with its error. For one that the engine knows the engine is set up,
/// and that can fail. A handle is returned exactly when no error is
/// written, and the slot is then left as it was.
pub fn fastembed_sparse_text_embedding_new(
    model_name: Option<&[u8]>,
    error: Option<&mut Option<Box<FastEmbedError>>>,
) -> (r: Option<Box<SparseTextEmbeddingHandle>>)
    ensures
        match identifier_result(foreign_text(model_name), "Qdrant/Splade_PP_en_v1"@) {
            Err(e) => r is None && (error matches Some(slot) ==> holds_error(*final(slot), e)),
            Ok(name) => if !sparse_model_known(name) {
                r is None && (error matches Some(slot) ==> holds_error(
                    *final(slot),
                    failure(
                        ErrorKind::ModelResolutionFailure,
                        "Invalid sparse model: "@,
                        "Unknown sparse model: "@ + name,
                    ),
                ))
            } else {
                match r {
                    Some(_) => error matches Some(slot) ==> *final(slot) == *slot,
                    None => error matches Some(slot) ==> exists|detail: Seq<char>|
                        holds_error(
                            *final(slot),
                            #[trigger] failure(
                                ErrorKind::ModelResolutionFailure,
                                "Failed to create sparse text embedding: "@,
                                detail,
                            ),
                        ),
                }
            },
        },
{
    let name = match model_identifier(model_name, "Qdrant/Splade_PP_en_v1") {
        Ok(name) => name,
        Err(e) => {
            return fail(error, e);
        },
    };
    let model = match resolve_sparse_model(name.as_str()) {
        Ok(model) => model,
        Err(e) => {
            return fail(error, e);
        },
    };
    let started = match sparse_engine_new(model) {
        Ok(engine) => Ok(engine),
        Err(e) => Err(engine_error_text(&e)),
    };
    match or_failure(
        started,
        ErrorKind::ModelResolutionFailure,
        "Failed to create sparse text embedding: ",
    ) {
        Ok(engine) => Some(Box::new(SparseTextEmbeddingHandle(Box::new(engine)))),
        Err(e) => fail(error, e),
    }
}

/// Embeds `texts` sparsely.
///
/// A null handle or array, and a text that is null or not UTF-8, end the
/// call with their error before the engine is asked. Otherwise the engine
/// embeds, with the batch size passed on (zero: the engine's own), and
/// either its embeddings are returned, in its order, or its failure is
/// reported. An empty array is a request like any other.
pub fn fastembed_sparse_text_embedding_embed(
    handle: Option<&mut SparseTextEmbeddingHandle>,
    texts: Option<&[Option<&[u8]>]>,
    batch_size: usize,
    error: Option<&mut Option<Box<FastEmbedError>>>,
) -> (r: Option<Box<SparseEmbeddingVec>>)
    ensures
        match embed_request(handle is Some, foreign_array(texts), TextRole::Text) {
            Err(e) => r is None && (error matches Some(slot) ==> holds_error(*final(slot), e)),
            Ok(_) => match r {
                Some(vec) => vec.wf() && (error matches Some(slot) ==> *final(slot) == *slot),
                None => error matches Some(slot) ==> exists|detail: Seq<char>|
                    holds_error(
                        *final(slot),
                        #[trigger] failure(
                            ErrorKind::InferenceFailure,
                            "Sparse embedding failed: "@,
                            detail,
                        ),
                    ),
            },
        },
{
    let handle = match handle {
        Some(handle) => handle,
        None => {
            return fail(error, FastEmbedError::null_argument());
        },
    };
    let call = match read_embed_request(true, texts, batch_size, TextRole::Text) {
        Ok(call) => call,
        Err(e) => {
            return fail(error, e);
        },
    };
    let answer = match sparse_engine_embed(&mut handle.0, call.texts, call.batch_size) {
        Ok(rows) => Ok(rows),
        Err(e) => Err(engine_error_text(&e)),
    };
    match sparse_outcome(answer) {
        Ok(vec) => Some(vec),
        Err(e) => fail(error, e),
    }
}

/// Releases a sparse embedding engine and its handle. Nothing happens on
/// `None`.
pub fn fastembed_sparse_text_embedding_free(handle: Option<Box<SparseTextEmbeddingHandle>>) -> (released:
    bool)
    ensures
        released == (handle is Some),
{
    match handle {
        Some(handle) => {
            let SparseTextEmbeddingHandle(engine) = *handle;
            let _ = engine;
            true
        },
        None => false,
    }
}

} // verus!
