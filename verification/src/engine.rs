//! The inference engine as this crate sees it: four opaque engines, what
//! they are asked, and what they hand back as plain values.
//!
//! Nothing in this file is proved. Each function below makes one request of
//! the `fastembed` crate, and its contract is what that crate's source shows
//! of the answer.

use vstd::prelude::*;
use crate::c_text::has_nul;

verus! {

/// `fastembed::TextEmbedding`: the dense text embedding engine. Nothing is known of what is
/// inside.
#[verifier::external_type_specification]
#[verifier::external_body]
pub struct ExTextEmbedding(fastembed::TextEmbedding);

/// `fastembed::SparseTextEmbedding`: the sparse text embedding engine. Nothing is known of what is
/// inside.
#[verifier::external_type_specification]
#[verifier::external_body]
pub struct ExSparseTextEmbedding(fastembed::SparseTextEmbedding);

/// `fastembed::ImageEmbedding`: the image embedding engine. Nothing is known of what is
/// inside.
#[verifier::external_type_specification]
#[verifier::external_body]
pub struct ExImageEmbedding(fastembed::ImageEmbedding);

/// `fastembed::TextRerank`: the reranking engine. Nothing is known of what is
/// inside.
#[verifier::external_type_specification]
#[verifier::external_body]
pub struct ExTextRerank(fastembed::TextRerank);

/// `fastembed::Error`: what an engine fails with. Nothing is known of what is
/// inside.
#[verifier::external_type_specification]
#[verifier::external_body]
pub struct ExEngineError(fastembed::Error);

/// `fastembed::SparseModel`: which sparse model. Nothing is known of what is
/// inside.
#[verifier::external_type_specification]
#[verifier::external_body]
pub struct ExSparseModel(fastembed::SparseModel);

/// `fastembed::ImageEmbeddingModel`: which image model. Nothing is known of what is
/// inside.
#[verifier::external_type_specification]
#[verifier::external_body]
pub struct ExImageEmbeddingModel(fastembed::ImageEmbeddingModel);

/// `fastembed::RerankerModel`: which reranking model. Nothing is known of what is
/// inside.
#[verifier::external_type_specification]
#[verifier::external_body]
pub struct ExRerankerModel(fastembed::RerankerModel);

/// The text embedding models that can be asked for by name.
#[derive(Clone, Copy, Debug, PartialEq, Eq, Structural)]
pub enum TextModel {
    /// sentence-transformers/all-MiniLM-L6-v2
    AllMiniLML6V2,
    /// BAAI/bge-small-en-v1.5
    BGESmallENV15,
    /// BAAI/bge-base-en-v1.5
    BGEBaseENV15,
    /// BAAI/bge-large-en-v1.5
    BGELargeENV15,
}

/// One sparse embedding of the engine: the places that carry weight and the
/// weight at each, as bit patterns.
pub struct SparseEmbedding {
    pub indices: Vec<usize>,
    pub values: Vec<u32>,
}

impl SparseEmbedding {
    /// There is one weight for each place.
    pub open spec fn wf(&self) -> bool {
        self.indices@.len() == self.values@.len()
    }
}

/// One ranked document of the engine: where it stood in the input, its
/// score as a bit pattern, and its text if texts were asked for.
pub struct RerankResult {
    pub index: usize,
    pub score: u32,
    pub document: Option<String>,
}

/// One entry of an embedding engine's catalog.
pub struct ModelInfo {
    pub model_code: String,
    pub description: String,
    pub dim: usize,
}

/// One entry of the reranking engine's catalog.
pub struct RerankerModelInfo {
    pub model_code: String,
    pub description: String,
}

/// The lower-case form of an ASCII capital; any other character is itself.
pub open spec fn ascii_lower(c: char) -> char {
    if 'A' <= c && c <= 'Z' {
        ((c as u8 + 32) as u8) as char
    } else {
        c
    }
}

/// Two texts that differ at most in the case of their ASCII letters.
pub open spec fn ascii_case_equal(a: Seq<char>, b: Seq<char>) -> bool {
    &&& a.len() == b.len()
    &&& forall|i: int| 0 <= i < a.len() ==> ascii_lower(#[trigger] a[i]) == ascii_lower(b[i])
}

/// Some entry's code is `code`, up to the case of ASCII letters.
pub open spec fn lists_code(codes: Seq<Seq<char>>, code: Seq<char>) -> bool {
    exists|i: int| 0 <= i < codes.len() && ascii_case_equal(#[trigger] codes[i], code)
}

/// The codes of a catalog, in its order.
pub open spec fn model_codes(models: Seq<ModelInfo>) -> Seq<Seq<char>> {
    Seq::new(models.len(), |i: int| models[i].model_code@)
}

/// The codes of the reranking catalog, in its order.
pub open spec fn reranker_codes(models: Seq<RerankerModelInfo>) -> Seq<Seq<char>> {
    Seq::new(models.len(), |i: int| models[i].model_code@)
}

/// No code in the sequence holds a NUL.
pub open spec fn codes_are_c_safe(codes: Seq<Seq<char>>) -> bool {
    forall|i: int| 0 <= i < codes.len() ==> !has_nul(#[trigger] codes[i])
}

/// Whether the engine knows a sparse model by this identifier.
pub uninterp spec fn sparse_model_known(code: Seq<char>) -> bool;

/// Whether the engine knows an image model by this identifier.
pub uninterp spec fn image_model_known(code: Seq<char>) -> bool;

/// Whether the engine knows a reranking model by this identifier.
pub uninterp spec fn reranker_model_known(code: Seq<char>) -> bool;

/// What the engine does with a document when it ranks: with texts asked
/// for, the record names a place in the input and carries the text that
/// stands there; without, it carries none.
pub open spec fn records_document(
    record: RerankResult,
    documents: Seq<String>,
    return_documents: bool,
) -> bool {
    if return_documents {
        &&& record.index < documents.len()
        &&& record.document matches Some(text)
        &&& text@ == documents[record.index as int]@
    } else {
        record.document is None
    }
}

/// `fastembed::TextEmbedding::try_new` on `fastembed::TextInitOptions::new`
/// of the model. The call fetches and loads model files; nothing is claimed
/// of how it ends.
#[verifier::external_body]
pub(crate) fn text_engine_new(model: TextModel) -> (r: Result<
    fastembed::TextEmbedding,
    fastembed::Error,
>) {
    let model = match model {
        TextModel::AllMiniLML6V2 => fastembed::EmbeddingModel::AllMiniLML6V2,
        TextModel::BGESmallENV15 => fastembed::EmbeddingModel::BGESmallENV15,
        TextModel::BGEBaseENV15 => fastembed::EmbeddingModel::BGEBaseENV15,
        TextModel::BGELargeENV15 => fastembed::EmbeddingModel::BGELargeENV15,
    };
    fastembed::TextEmbedding::try_new(fastembed::TextInitOptions::new(model))
}

/// `str::parse` to `fastembed::SparseModel`. The source looks the
/// identifier up in the catalog and, where it finds none, answers with
/// "Unknown sparse model: " and the identifier.
#[verifier::external_body]
pub(crate) fn parse_sparse_model(name: &str) -> (r: Result<fastembed::SparseModel, String>)
    ensures
        r is Ok <==> sparse_model_known(name@),
        r matches Err(detail) ==> detail@ == "Unknown sparse model: "@ + name@,
{
    name.parse::<fastembed::SparseModel>()
}

/// `str::parse` to `fastembed::ImageEmbeddingModel`. The source looks the
/// identifier up in the catalog and, where it finds none, answers with
/// "Unknown embedding model: " and the identifier.
#[verifier::external_body]
pub(crate) fn parse_image_model(name: &str) -> (r: Result<fastembed::ImageEmbeddingModel, String>)
    ensures
        r is Ok <==> image_model_known(name@),
        r matches Err(detail) ==> detail@ == "Unknown embedding model: "@ + name@,
{
    name.parse::<fastembed::ImageEmbeddingModel>()
}

/// `str::parse` to `fastembed::RerankerModel`. The source looks the
/// identifier up in the catalog and, where it finds none, answers with
/// "Unknown reranker model: " and the identifier.
#[verifier::external_body]
pub(crate) fn parse_reranker_model(name: &str) -> (r: Result<fastembed::RerankerModel, String>)
    ensures
        r is Ok <==> reranker_model_known(name@),
        r matches Err(detail) ==> detail@ == "Unknown reranker model: "@ + name@,
{
    name.parse::<fastembed::RerankerModel>()
}

/// `fastembed::SparseTextEmbedding::try_new` on
/// `fastembed::SparseInitOptions::new` of the model. The call fetches and
/// loads model files; nothing is claimed of how it ends.
#[verifier::external_body]
pub(crate) fn sparse_engine_new(model: fastembed::SparseModel) -> (r: Result<
    fastembed::SparseTextEmbedding,
    fastembed::Error,
>) {
    fastembed::SparseTextEmbedding::try_new(fastembed::SparseInitOptions::new(model))
}

/// `fastembed::ImageEmbedding::try_new` on `fastembed::ImageInitOptions::new`
/// of the model. The call fetches and loads model files; nothing is claimed
/// of how it ends.
#[verifier::external_body]
pub(crate) fn image_engine_new(model: fastembed::ImageEmbeddingModel) -> (r: Result<
    fastembed::ImageEmbedding,
    fastembed::Error,
>) {
    fastembed::ImageEmbedding::try_new(fastembed::ImageInitOptions::new(model))
}

/// `fastembed::TextRerank::try_new` on `fastembed::RerankInitOptions::new` of
/// the model. The call fetches and loads model files; nothing is claimed of
/// how it ends.
#[verifier::external_body]
pub(crate) fn rerank_engine_new(model: fastembed::RerankerModel) -> (r: Result<
    fastembed::TextRerank,
    fastembed::Error,
>) {
    fastembed::TextRerank::try_new(fastembed::RerankInitOptions::new(model))
}

/// `fastembed::TextEmbedding::embed`, each number of the answer turned into
/// its bit pattern. What comes back is the model's to decide.
#[verifier::external_body]
pub(crate) fn text_engine_embed(
    engine: &mut fastembed::TextEmbedding,
    texts: Vec<String>,
    batch_size: Option<usize>,
) -> (r: Result<Vec<Vec<u32>>, fastembed::Error>) {
    match engine.embed(texts, batch_size) {
        Ok(rows) => Ok(
            rows.into_iter().map(|row| row.into_iter().map(|x| x.to_bits()).collect()).collect(),
        ),
        Err(e) => Err(e),
    }
}

/// `fastembed::SparseTextEmbedding::embed`, each weight of the answer turned
/// into its bit pattern. The source builds every embedding by pushing a
/// place and its weight together, so the two run as long as each other.
#[verifier::external_body]
pub(crate) fn sparse_engine_embed(
    engine: &mut fastembed::SparseTextEmbedding,
    texts: Vec<String>,
    batch_size: Option<usize>,
) -> (r: Result<Vec<SparseEmbedding>, fastembed::Error>)
    ensures
        r matches Ok(embeddings) ==> forall|i: int|
            0 <= i < embeddings@.len() ==> (#[trigger] embeddings@[i]).wf(),
{
    match engine.embed(texts, batch_size) {
        Ok(rows) => Ok(
            rows.into_iter().map(
                |row|
                    SparseEmbedding {
                        indices: row.indices,
                        values: row.values.into_iter().map(|x| x.to_bits()).collect(),
                    },
            ).collect(),
        ),
        Err(e) => Err(e),
    }
}

/// `fastembed::ImageEmbedding::embed` on the paths, each number of the
/// answer turned into its bit pattern. The call reads the image files; what
/// comes back is the model's to decide.
#[verifier::external_body]
pub(crate) fn image_engine_embed(
    engine: &mut fastembed::ImageEmbedding,
    paths: Vec<String>,
    batch_size: Option<usize>,
) -> (r: Result<Vec<Vec<u32>>, fastembed::Error>) {
    match engine.embed(paths, batch_size) {
        Ok(rows) => Ok(
            rows.into_iter().map(|row| row.into_iter().map(|x| x.to_bits()).collect()).collect(),
        ),
        Err(e) => Err(e),
    }
}

/// `fastembed::TextRerank::rerank`, each score of the answer turned into its
/// bit pattern. The source numbers the scores by their place in the input
/// and, where texts are asked for, copies the document at that place into
/// the record; where they are not, the record carries no text.
#[verifier::external_body]
pub(crate) fn engine_rerank(
    engine: &mut fastembed::TextRerank,
    query: &str,
    documents: &Vec<String>,
    return_documents: bool,
    batch_size: Option<usize>,
) -> (r: Result<Vec<RerankResult>, fastembed::Error>)
    ensures
        r matches Ok(records) ==> forall|i: int|
            0 <= i < records.len() ==> records_document(
                #[trigger] records[i],
                documents@,
                return_documents,
            ),
{
    let texts: Vec<&str> = documents.iter().map(|d| d.as_str()).collect();
    match engine.rerank(query, texts, return_documents, batch_size) {
        Ok(rows) => Ok(
            rows.into_iter().map(
                |row|
                    RerankResult {
                        index: row.index,
                        score: row.score.to_bits(),
                        document: row.document,
                    },
            ).collect(),
        ),
        Err(e) => Err(e),
    }
}

/// The words that `fastembed::Error` prints for itself.
#[verifier::external_body]
pub(crate) fn engine_error_text(e: &fastembed::Error) -> (text: String) {
    e.to_string()
}

/// `fastembed::TextEmbedding::list_supported_models`, each entry reduced to
/// its code, description and dimension. The source fills the list from a
/// fixed table that is not empty, in no fixed order.
#[verifier::external_body]
pub(crate) fn text_catalog() -> (models: Vec<ModelInfo>)
    ensures
        models.len() > 0,
{
    fastembed::TextEmbedding::list_supported_models().into_iter().map(
        |m| ModelInfo { model_code: m.model_code, description: m.description, dim: m.dim },
    ).collect()
}

/// `fastembed::SparseTextEmbedding::list_supported_models`, each entry
/// reduced to its code, description and dimension. The list is a fixed one
/// and not empty, its codes hold no NUL, and it is the list that
/// identifiers are looked up in: one is known exactly if it is a listed code
/// up to letter case.
#[verifier::external_body]
pub(crate) fn sparse_catalog() -> (models: Vec<ModelInfo>)
    ensures
        models.len() > 0,
        codes_are_c_safe(model_codes(models@)),
        forall|code: Seq<char>| #[trigger]
            sparse_model_known(code) <==> lists_code(model_codes(models@), code),
{
    fastembed::SparseTextEmbedding::list_supported_models().into_iter().map(
        |m| ModelInfo { model_code: m.model_code, description: m.description, dim: m.dim },
    ).collect()
}

/// `fastembed::ImageEmbedding::list_supported_models`, each entry reduced to
/// its code, description and dimension. The list is a fixed one and not
/// empty, its codes hold no NUL, and it is the list that identifiers are
/// looked up in: one is known exactly if it is a listed code up to letter
/// case.
#[verifier::external_body]
pub(crate) fn image_catalog() -> (models: Vec<ModelInfo>)
    ensures
        models.len() > 0,
        codes_are_c_safe(model_codes(models@)),
        forall|code: Seq<char>| #[trigger]
            image_model_known(code) <==> lists_code(model_codes(models@), code),
{
    fastembed::ImageEmbedding::list_supported_models().into_iter().map(
        |m| ModelInfo { model_code: m.model_code, description: m.description, dim: m.dim },
    ).collect()
}

/// `fastembed::TextRerank::list_supported_models`, each entry reduced to its
/// code and description. The list is a fixed one and not empty, its codes
/// hold no NUL, and it is the list that identifiers are looked up in: one is
/// known exactly if it is a listed code up to letter case.
#[verifier::external_body]
pub(crate) fn reranker_catalog() -> (models: Vec<RerankerModelInfo>)
    ensures
        models.len() > 0,
        codes_are_c_safe(reranker_codes(models@)),
        forall|code: Seq<char>| #[trigger]
            reranker_model_known(code) <==> lists_code(reranker_codes(models@), code),
{
    fastembed::TextRerank::list_supported_models().into_iter().map(
        |m| RerankerModelInfo { model_code: m.model_code, description: m.description },
    ).collect()
}

} // verus!
