//! A boundary layer that lets a foreign caller drive an in-process inference
//! engine: text embedding, sparse text embedding, image embedding and
//! reranking.
//!
//! Everything here works on owned values. A nullable pointer is an `Option`,
//! a counted array is a slice, a C string is the bytes before its terminator,
//! and a single-precision number is its IEEE-754 bit pattern in a `u32`. The
//! raw-pointer shim that sits on top of this crate only converts between
//! those values and addresses.

pub mod c_text;
pub mod catalog;
pub mod engine;
pub mod error;
pub mod image_embedding;
pub mod request;
pub mod rerank;
pub mod shapes;
pub mod sparse_embedding;
pub mod text;
pub mod text_embedding;

pub use catalog::{
    fastembed_image_embedding_list_supported_models, fastembed_model_info_vec_free,
    fastembed_sparse_text_embedding_list_supported_models,
    fastembed_text_embedding_list_supported_models, fastembed_text_rerank_list_supported_models,
    ModelInfoC, ModelInfoVec,
};
pub use engine::{ModelInfo, RerankResult, RerankerModelInfo, SparseEmbedding, TextModel};
pub use error::{fastembed_error_free, report, ErrorKind, FastEmbedError};
pub use image_embedding::{
    fastembed_image_embedding_embed, fastembed_image_embedding_free,
    fastembed_image_embedding_new, resolve_image_model, ImageEmbeddingHandle,
};
pub use request::{
    batch_option, dense_outcome, model_identifier, or_failure, read_embed_request,
    rerank_outcome, sparse_outcome, EmbedCall,
};
pub use rerank::{
    fastembed_text_rerank_free, fastembed_text_rerank_new, fastembed_text_rerank_rerank,
    read_rerank_request, resolve_reranker_model, RerankCall, TextRerankHandle,
};
pub use shapes::{
    fastembed_float_array_vec_free, fastembed_rerank_result_vec_free,
    fastembed_sparse_embedding_vec_free, FloatArray, FloatArrayVec, RerankResultC,
    RerankResultVec, SparseEmbeddingC, SparseEmbeddingVec,
};
pub use sparse_embedding::{
    fastembed_sparse_text_embedding_embed, fastembed_sparse_text_embedding_free,
    fastembed_sparse_text_embedding_new, resolve_sparse_model, SparseTextEmbeddingHandle,
};
pub use text::{decode_array, decode_text, TextRole};
pub use text_embedding::{
    fastembed_text_embedding_embed, fastembed_text_embedding_free, fastembed_text_embedding_new,
    resolve_text_model, TextEmbeddingHandle,
};
