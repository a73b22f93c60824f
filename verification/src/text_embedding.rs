//! Dense text embedding: the handle on a text embedding engine, and the call
//! that embeds texts.

use vstd::prelude::*;
use vstd::string::*;
use crate::engine::{engine_error_text, text_engine_embed, text_engine_new, TextModel};
use crate::error::{failure, ErrorKind, FastEmbedError};
use crate::request::{
    dense_outcome, embed_request, fail, foreign_text, holds_error, identifier_result,
    model_identifier, or_failure, read_embed_request, same_text,
};
use crate::shapes::FloatArrayVec;
use crate::text::{foreign_array, TextRole};

verus! {

/// A live text embedding engine and the model it was set up for. Whoever
/// holds the handle owns the engine, and a call through the handle has it
/// to itself for as long as it runs.
pub struct TextEmbeddingHandle {
    engine: Box<fastembed::TextEmbedding>,
    model: TextModel,
}

impl TextEmbeddingHandle {
    /// The model that the engine was set up for.
    pub closed spec fn model(&self) -> TextModel {
        self.model
    }
}

/// The model that an identifier stands for. One that is not among the four
/// names stands for the small English model.
pub open spec fn text_model_choice(name: Seq<char>) -> TextModel {
    if name == "AllMiniLML6V2"@ {
        TextModel::AllMiniLML6V2
    } else if name == "BGESmallENV15"@ {
        TextModel::BGESmallENV15
    } else if name == "BGEBaseENV15"@ {
        TextModel::BGEBaseENV15
    } else if name == "BGELargeENV15"@ {
        TextModel::BGELargeENV15
    } else {
        TextModel::BGESmallENV15
    }
}

/// Resolves a model identifier. No identifier is turned down.
pub fn resolve_text_model(name: &str) -> (model: TextModel)
    ensures
        model == text_model_choice(name@),
{
    if same_text(name, "AllMiniLML6V2") {
        TextModel::AllMiniLML6V2
    } else if same_text(name, "BGESmallENV15") {
        TextModel::BGESmallENV15
    } else if same_text(name, "BGEBaseENV15") {
        TextModel::BGEBaseENV15
    } else if same_text(name, "BGELargeENV15") {
        TextModel::BGELargeENV15
    } else {
        TextModel::BGESmallENV15
    }
}

/// Sets up a text embedding engine for the model that `model_name` spells,
/// or for "BAAI/bge-small-en-v1.5" where it is `None`.
///
/// An identifier that is not UTF-8 ends the call with its error. Any other
/// is resolved, the engine is set up for the model it stands for, and that
/// can fail. A handle is returned exactly when no error is written, and the
/// slot is then left as it was.
pub fn fastembed_text_embedding_new(
    model_name: Option<&[u8]>,
    error: Option<&mut Option<Box<FastEmbedError>>>,
) -> (r: Option<Box<TextEmbeddingHandle>>)
    ensures
        match identifier_result(foreign_text(model_name), "BAAI/bge-small-en-v1.5"@) {
            Err(e) => r is None && (error matches Some(slot) ==> holds_error(*final(slot), e)),
            Ok(name) => match r {
                Some(handle) => {
                    &&& handle.model() == text_model_choice(name)
                    &&& error matches Some(slot) ==> *final(slot) == *slot
                },
                None => error matches Some(slot) ==> exists|detail: Seq<char>|
                    holds_error(
                        *final(slot),
                        #[trigger] failure(
                            ErrorKind::ModelResolutionFailure,
                            "Failed to create text embedding: "@,
                            detail,
                        ),
                    ),
            },
        },
{
    let name = match model_identifier(model_name, "BAAI/bge-small-en-v1.5") {
        Ok(name) => name,
        Err(e) => {
            return fail(error, e);
        },
    };
    let model = resolve_text_model(name.as_str());
    let started = match text_engine_new(model) {
        Ok(engine) => Ok(engine),
        Err(e) => Err(engine_error_text(&e)),
    };
    match or_failure(
        started,
        ErrorKind::ModelResolutionFailure,
        "Failed to create text embedding: ",
    ) {
        Ok(engine) => Some(Box::new(TextEmbeddingHandle { engine: Box::new(engine), model })),
        Err(e) => fail(error, e),
    }
}

/// Embeds `texts`.
///
/// A null handle or array, and a text that is null or not UTF-8, end the
/// call with their error before the engine is asked. Otherwise the engine
/// embeds, with the batch size passed on (zero: the engine's own), and
/// either its vectors are returned, in its order, or its failure is
/// reported. An empty array is a request like any other.
pub fn fastembed_text_embedding_embed(
    handle: Option<&mut TextEmbeddingHandle>,
    texts: Option<&[Option<&[u8]>]>,
    batch_size: usize,
    error: Option<&mut Option<Box<FastEmbedError>>>,
) -> (r: Option<Box<FloatArrayVec>>)
    ensures
        match embed_request(handle is Some, foreign_array(texts), TextRole::Text) {
            Err(e) => r is None && (error matches Some(slot) ==> holds_error(*final(slot), e)),
            Ok(_) => match r {
                Some(vec) => vec.wf() && (error matches Some(slot) ==> *final(slot) == *slot),
                None => error matches Some(slot) ==> exists|detail: Seq<char>|
                    holds_error(
                        *final(slot),
                        #[trigger] failure(
                            ErrorKind::InferenceFailure,
                            "Embedding failed: "@,
                            detail,
                        ),
                    ),
            },
        },
        handle matches Some(h) ==> final(h).model() == h.model(),
{
    let handle = match handle {
        Some(handle) => handle,
        None => {
            return fail(error, FastEmbedError::null_argument());
        },
    };
    let call = match read_embed_request(true, texts, batch_size, TextRole::Text) {
        Ok(call) => call,
        Err(e) => {
            return fail(error, e);
        },
    };
    let answer = match text_engine_embed(&mut handle.engine, call.texts, call.batch_size) {
        Ok(rows) => Ok(rows),
        Err(e) => Err(engine_error_text(&e)),
    };
    match dense_outcome(answer, "Embedding failed: ") {
        Ok(vec) => Some(vec),
        Err(e) => fail(error, e),
    }
}

/// Releases a text embedding engine and its handle. Nothing happens on
/// `None`.
pub fn fastembed_text_embedding_free(handle: Option<Box<TextEmbeddingHandle>>) -> (released: bool)
    ensures
        released == (handle is Some),
{
    match handle {
        Some(handle) => {
            let TextEmbeddingHandle { engine, model: _ } = *handle;
            let _ = engine;
            true
        },
        None => false,
    }
}

} // verus!
