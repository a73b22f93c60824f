//! Image embedding: the handle on an image embedding engine, and the call
//! that embeds the images at given paths.

use vstd::prelude::*;
use vstd::string::*;
use crate::engine::{
    engine_error_text, image_engine_embed, image_engine_new, image_model_known,
    parse_image_model,
};
use crate::error::{failure, ErrorKind, FastEmbedError};
use crate::request::{
    dense_outcome, embed_request, fail, foreign_text, holds_error, identifier_result,
    model_identifier, or_failure, read_embed_request,
};
use crate::shapes::FloatArrayVec;
use crate::text::{foreign_array, TextRole};

verus! {

/// A live image embedding engine. Whoever holds the handle owns the engine,
/// and a call through the handle has it to itself for as long as it runs.
pub struct ImageEmbeddingHandle(Box<fastembed::ImageEmbedding>);

/// Resolves the identifier of an image model. One that the engine does not know
/// is turned down, in the engine's words behind
/// "Invalid image model: ".
pub fn resolve_image_model(name: &str) -> (r: Result<
    fastembed::ImageEmbeddingModel,
    Box<FastEmbedError>,
>)
    ensures
        r is Ok <==> image_model_known(name@),
        r matches Err(e) ==> e@ == failure(
            ErrorKind::ModelResolutionFailure,
            "Invalid image model: "@,
            "Unknown embedding model: "@ + name@,
        ) && e.wf(),
{
    or_failure(
        parse_image_model(name),
        ErrorKind::ModelResolutionFailure,
        "Invalid image model: ",
    )
}

/// Sets up an image embedding engine for the model that `model_name`
/// spells, or for "Qdrant/clip-ViT-B-32-vision" where it is `None`.
///
/// An identifier that is not UTF-8 or that the engine does not know ends the
/// call with its error. For one that the engine knows the engine is set up,
/// and that can fail. A handle is returned exactly when no error is
/// written, and the slot is then left as it was.
pub fn fastembed_image_embedding_new(
    model_name: Option<&[u8]>,
    error: Option<&mut Option<Box<FastEmbedError>>>,
) -> (r: Option<Box<ImageEmbeddingHandle>>)
    ensures
        match identifier_result(foreign_text(model_name), "Qdrant/clip-ViT-B-32-vision"@) {
            Err(e) => r is None && (error matches Some(slot) ==> holds_error(*final(slot), e)),
            Ok(name) => if !image_model_known(name) {
                r is None && (error matches Some(slot) ==> holds_error(
                    *final(slot),
                    failure(
                        ErrorKind::ModelResolutionFailure,
                        "Invalid image model: "@,
                        "Unknown embedding model: "@ + name,
                    ),
                ))
            } else {
                match r {
                    Some(_) => error matches Some(slot) ==> *final(slot) == *slot,
                    None => error matches Some(slot) ==> exists|detail: Seq<char>|
                        holds_error(
                            *final(slot),
                            #[trigger] failure(
                                ErrorKind::ModelResolutionFailure,
                                "Failed to create image embedding: "@,
                                detail,
                            ),
                        ),
                }
            },
        },
{
    let name = match model_identifier(model_name, "Qdrant/clip-ViT-B-32-vision") {
        Ok(name) => name,
        Err(e) => {
            return fail(error, e);
        },
    };
    let model = match resolve_image_model(name.as_str()) {
        Ok(model) => model,
        Err(e) => {
            return fail(error, e);
        },
    };
    let started = match image_engine_new(model) {
        Ok(engine) => Ok(engine),
        Err(e) => Err(engine_error_text(&e)),
    };
    match or_failure(
        started,
        ErrorKind::ModelResolutionFailure,
        "Failed to create image embedding: ",
    ) {
        Ok(engine) => Some(Box::new(ImageEmbeddingHandle(Box::new(engine)))),
        Err(e) => fail(error, e),
    }
}

/// Embeds the images at `image_paths`.
///
/// A null handle or array, and a path that is null or not UTF-8, end the
/// call with their error before the engine is asked. Otherwise the engine
/// reads and embeds the images, with the batch size passed on (zero: the
/// engine's own), and either its vectors are returned, in its order, or its
/// failure is reported. An empty array is a request like any other.
pub fn fastembed_image_embedding_embed(
    handle: Option<&mut ImageEmbeddingHandle>,
    image_paths: Option<&[Option<&[u8]>]>,
    batch_size: usize,
    error: Option<&mut Option<Box<FastEmbedError>>>,
) -> (r: Option<Box<FloatArrayVec>>)
    ensures
        match embed_request(handle is Some, foreign_array(image_paths), TextRole::Path) {
            Err(e) => r is None && (error matches Some(slot) ==> holds_error(*final(slot), e)),
            Ok(_) => match r {
                Some(vec) => vec.wf() && (error matches Some(slot) ==> *final(slot) == *slot),
                None => error matches Some(slot) ==> exists|detail: Seq<char>|
                    holds_error(
                        *final(slot),
                        #[trigger] failure(
                            ErrorKind::InferenceFailure,
                            "Image embedding failed: "@,
                            detail,
                        ),
                    ),
            },
        },
{
    let handle = match handle {
        Some(handle) => handle,
        None => {
            return fail(error, FastEmbedError::null_argument());
        },
    };
    let call = match read_embed_request(true, image_paths, batch_size, TextRole::Path) {
        Ok(call) => call,
        Err(e) => {
            return fail(error, e);
        },
    };
    let answer = match image_engine_embed(&mut handle.0, call.texts, call.batch_size) {
        Ok(rows) => Ok(rows),
        Err(e) => Err(engine_error_text(&e)),
    };
    match dense_outcome(answer, "Image embedding failed: ") {
        Ok(vec) => Some(vec),
        Err(e) => fail(error, e),
    }
}

/// Releases an image embedding engine and its handle. Nothing happens on
/// `None`.
pub fn fastembed_image_embedding_free(handle: Option<Box<ImageEmbeddingHandle>>) -> (released: bool)
    ensures
        released == (handle is Some),
{
    match handle {
        Some(handle) => {
            let ImageEmbeddingHandle(engine) = *handle;
            let _ = engine;
            true
        },
        None => false,
    }
}

} // verus!
