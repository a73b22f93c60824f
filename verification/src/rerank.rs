//! Reranking: the handle on a reranking engine, and the call that ranks
//! documents against a query.

use vstd::prelude::*;
use vstd::string::*;
use crate::engine::{
    engine_error_text, engine_rerank, parse_reranker_model, rerank_engine_new,
    records_document, reranker_model_known,
};
use crate::error::{failure, null_argument_error, ErrorKind, ErrorView, FastEmbedError};
use crate::request::{
    batch_choice, batch_option, fail, foreign_text, holds_error, identifier_result,
    model_identifier, or_failure, rerank_outcome,
};
use crate::shapes::{RerankResultVec, RerankView};
use crate::text::{
    decode_array, decode_array_result, decode_text, decode_text_result, foreign_array, texts_of,
    TextRole,
};

verus! {

/// A live reranking engine. Whoever holds the handle owns the engine,
/// and a call through the handle has it to itself for as long as it runs.
pub struct TextRerankHandle(Box<fastembed::TextRerank>);

/// The query and the documents that a rerank call works with, or the error
/// that the call ends with before the engine is asked.
pub open spec fn rerank_request(
    handle_present: bool,
    query: Option<Seq<u8>>,
    documents: Option<Seq<Option<Seq<u8>>>>,
) -> Result<(Seq<char>, Seq<Seq<char>>), ErrorView> {
    if !handle_present || query is None || documents is None {
        Err(null_argument_error())
    } else {
        match decode_text_result(query.unwrap(), TextRole::Query) {
            Err(e) => Err(e),
            Ok(q) => match decode_array_result(documents.unwrap(), TextRole::Document) {
                Err(e) => Err(e),
                Ok(texts) => Ok((q, texts)),
            },
        }
    }
}

/// A record that can be traced back to the input: with texts asked for, it
/// names a place among the documents and carries the text that stands
/// there; without, it carries none.
pub open spec fn ranks_document(
    record: RerankView,
    documents: Seq<Seq<char>>,
    return_documents: bool,
) -> bool {
    if return_documents {
        &&& record.index < documents.len()
        &&& record.document == Some(documents[record.index as int])
    } else {
        record.document is None
    }
}

/// What the reranking engine is asked: the query, the documents, whether
/// their texts are to come back, and the batch size if the caller chose one.
pub struct RerankCall {
    pub query: String,
    pub documents: Vec<String>,
    pub return_documents: bool,
    pub batch_size: Option<usize>,
}

/// Reads a rerank request. A missing handle, query or array is reported
/// first; then the query is decoded, then the documents, and the first text
/// that cannot be ends the call.
pub fn read_rerank_request(
    handle_present: bool,
    query: Option<&[u8]>,
    documents: Option<&[Option<&[u8]>]>,
    return_documents: bool,
    batch_size: usize,
) -> (r: Result<RerankCall, Box<FastEmbedError>>)
    ensures
        match r {
            Ok(call) => {
                &&& rerank_request(handle_present, foreign_text(query), foreign_array(documents))
                    == Ok::<(Seq<char>, Seq<Seq<char>>), ErrorView>(
                    (call.query@, texts_of(call.documents@)),
                )
                &&& call.return_documents == return_documents
                &&& call.batch_size == batch_choice(batch_size)
            },
            Err(e) => rerank_request(
                handle_present,
                foreign_text(query),
                foreign_array(documents),
            ) == Err::<(Seq<char>, Seq<Seq<char>>), ErrorView>(e@) && e.wf(),
        },
{
    let (query, documents) = match (query, documents) {
        (Some(query), Some(documents)) if handle_present => (query, documents),
        _ => {
            return Err(FastEmbedError::null_argument());
        },
    };
    let query = match decode_text(query, TextRole::Query) {
        Ok(query) => query,
        Err(e) => {
            return Err(e);
        },
    };
    match decode_array(documents, TextRole::Document) {
        Ok(documents) => Ok(
            RerankCall { query, documents, return_documents, batch_size: batch_option(batch_size) },
        ),
        Err(e) => Err(e),
    }
}

/// Resolves the identifier of a reranking model. One that the engine does not know
/// is turned down, in the engine's words behind
/// "Invalid reranker model: ".
pub fn resolve_reranker_model(name: &str) -> (r: Result<
    fastembed::RerankerModel,
    Box<FastEmbedError>,
>)
    ensures
        r is Ok <==> reranker_model_known(name@),
        r matches Err(e) ==> e@ == failure(
            ErrorKind::ModelResolutionFailure,
            "Invalid reranker model: "@,
            "Unknown reranker model: "@ + name@,
        ) && e.wf(),
{
    or_failure(
        parse_reranker_model(name),
        ErrorKind::ModelResolutionFailure,
        "Invalid reranker model: ",
    )
}

/// Sets up a reranking engine for the model that `model_name` spells, or for
/// "BAAI/bge-reranker-base" where it is `None`.
///
/// An identifier that is not UTF-8 or that the engine does not know ends the
/// call with its error. For one that the engine knows the engine is set up,
/// and that can fail. A handle is returned exactly when no error is
/// written, and the slot is then left as it was.
pub fn fastembed_text_rerank_new(
    model_name: Option<&[u8]>,
    error: Option<&mut Option<Box<FastEmbedError>>>,
) -> (r: Option<Box<TextRerankHandle>>)
    ensures
        match identifier_result(foreign_text(model_name), "BAAI/bge-reranker-base"@) {
            Err(e) => r is None && (error matches Some(slot) ==> holds_error(*final(slot), e)),
            Ok(name) => if !reranker_model_known(name) {
                r is None && (error matches Some(slot) ==> holds_error(
                    *final(slot),
                    failure(
                        ErrorKind::ModelResolutionFailure,
                        "Invalid reranker model: "@,
                        "Unknown reranker model: "@ + name,
                    ),
                ))
            } else {
                match r {
                    Some(_) => error matches Some(slot) ==> *final(slot) == *slot,
                    None => error matches Some(slot) ==> exists|detail: Seq<char>|
                        holds_error(
                            *final(slot),
                            #[trigger] failure(
                                ErrorKind::ModelResolutionFailure,
                                "Failed to create text reranker: "@,
                                detail,
                            ),
                        ),
                }
            },
        },
{
    let name = match model_identifier(model_name, "BAAI/bge-reranker-base") {
        Ok(name) => name,
        Err(e) => {
            return fail(error, e);
        },
    };
    let model = match resolve_reranker_model(name.as_str()) {
        Ok(model) => model,
        Err(e) => {
            return fail(error, e);
        },
    };
    let started = match rerank_engine_new(model) {
        Ok(engine) => Ok(engine),
        Err(e) => Err(engine_error_text(&e)),
    };
    match or_failure(
        started,
        ErrorKind::ModelResolutionFailure,
        "Failed to create text reranker: ",
    ) {
        Ok(engine) => Some(Box::new(TextRerankHandle(Box::new(engine)))),
        Err(e) => fail(error, e),
    }
}

/// Ranks `documents` against `query`.
///
/// A null handle, query or array, and a query or document that is null or
/// not UTF-8, end the call with their error before the engine is asked; the
/// query is read first. Otherwise the engine ranks, with the batch size
/// passed on (zero: the engine's own), and either its records are returned,
/// in its order, or its failure is reported. Each record can be traced back
/// to the input.
pub fn fastembed_text_rerank_rerank(
    handle: Option<&mut TextRerankHandle>,
    query: Option<&[u8]>,
    documents: Option<&[Option<&[u8]>]>,
    return_documents: bool,
    batch_size: usize,
    error: Option<&mut Option<Box<FastEmbedError>>>,
) -> (r: Option<Box<RerankResultVec>>)
    ensures
        match rerank_request(handle is Some, foreign_text(query), foreign_array(documents)) {
            Err(e) => r is None && (error matches Some(slot) ==> holds_error(*final(slot), e)),
            Ok((_, texts)) => match r {
                Some(vec) => {
                    &&& vec.wf()
                    &&& forall|i: int|
                        0 <= i < vec@.len() ==> ranks_document(
                            #[trigger] vec@[i],
                            texts,
                            return_documents,
                        )
                    &&& error matches Some(slot) ==> *final(slot) == *slot
                },
                None => error matches Some(slot) ==> exists|detail: Seq<char>|
                    holds_error(
                        *final(slot),
                        #[trigger] failure(
                            ErrorKind::InferenceFailure,
                            "Reranking failed: "@,
                            detail,
                        ),
                    ),
            },
        },
{
    let handle = match handle {
        Some(handle) => handle,
        None => {
            return fail(error, FastEmbedError::null_argument());
        },
    };
    let call = match read_rerank_request(true, query, documents, return_documents, batch_size) {
        Ok(call) => call,
        Err(e) => {
            return fail(error, e);
        },
    };
    let ghost texts = call.documents@;
    let answer = match engine_rerank(
        &mut handle.0,
        call.query.as_str(),
        &call.documents,
        call.return_documents,
        call.batch_size,
    ) {
        Ok(records) => Ok(records),
        Err(e) => Err(engine_error_text(&e)),
    };
    match rerank_outcome(answer) {
        Ok(vec) => {
            assert forall|i: int| 0 <= i < vec@.len() implies ranks_document(
                #[trigger] vec@[i],
                texts_of(texts),
                return_documents,
            ) by {
                let records = answer->Ok_0;
                assert(records_document(records[i], texts, return_documents));
            }
            Some(vec)
        },
        Err(e) => fail(error, e),
    }
}

/// Releases a reranking engine and its handle. Nothing happens on `None`.
pub fn fastembed_text_rerank_free(handle: Option<Box<TextRerankHandle>>) -> (released: bool)
    ensures
        released == (handle is Some),
{
    match handle {
        Some(handle) => {
            let TextRerankHandle(engine) = *handle;
            let _ = engine;
            true
        },
        None => false,
    }
}

} // verus!
