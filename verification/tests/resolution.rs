use fastembed_bridge::{
    fastembed_image_embedding_list_supported_models,
    fastembed_sparse_text_embedding_list_supported_models,
    fastembed_text_embedding_list_supported_models, fastembed_text_rerank_list_supported_models,
    resolve_image_model, resolve_reranker_model, resolve_sparse_model, resolve_text_model,
    ErrorKind, TextModel,
};

#[test]
fn every_listed_sparse_model_is_taken_by_the_constructor() {
    let list = fastembed_sparse_text_embedding_list_supported_models();
    assert!(list.len > 0);
    for model in list.models.iter() {
        assert!(resolve_sparse_model(&model.model_code).is_ok());
        assert!(resolve_sparse_model(&model.model_code.to_ascii_lowercase()).is_ok());
        assert!(resolve_sparse_model(&model.model_code.to_ascii_uppercase()).is_ok());
    }
}

#[test]
fn every_listed_image_model_is_taken_by_the_constructor() {
    let list = fastembed_image_embedding_list_supported_models();
    assert!(list.len > 0);
    for model in list.models.iter() {
        assert!(resolve_image_model(&model.model_code).is_ok());
        assert!(resolve_image_model(&model.model_code.to_ascii_lowercase()).is_ok());
    }
}

#[test]
fn every_listed_reranker_model_is_taken_by_the_constructor() {
    let list = fastembed_text_rerank_list_supported_models();
    assert!(list.len > 0);
    for model in list.models.iter() {
        assert!(resolve_reranker_model(&model.model_code).is_ok());
        assert!(resolve_reranker_model(&model.model_code.to_ascii_uppercase()).is_ok());
    }
}

#[test]
fn every_listed_text_model_is_taken_by_the_constructor() {
    let list = fastembed_text_embedding_list_supported_models();
    assert!(list.len > 0);
    for model in list.models.iter() {
        assert_eq!(resolve_text_model(&model.model_code), TextModel::BGESmallENV15);
    }
}

#[test]
fn sparse_resolution_finds_the_model() {
    let model = resolve_sparse_model("Qdrant/Splade_PP_en_v1").ok().unwrap();
    assert_eq!(model, fastembed::SparseModel::SPLADEPPV1);
    let model = resolve_sparse_model("qdrant/splade_pp_en_v1").ok().unwrap();
    assert_eq!(model, fastembed::SparseModel::SPLADEPPV1);
}

#[test]
fn image_resolution_finds_the_model() {
    let model = resolve_image_model("Qdrant/resnet50-onnx").ok().unwrap();
    assert_eq!(model, fastembed::ImageEmbeddingModel::Resnet50);
}

#[test]
fn reranker_resolution_finds_the_model() {
    let model = resolve_reranker_model("BAAI/bge-reranker-base").ok().unwrap();
    assert_eq!(model, fastembed::RerankerModel::BGERerankerBase);
    let model = resolve_reranker_model("jinaai/jina-reranker-v1-turbo-en").ok().unwrap();
    assert_eq!(model, fastembed::RerankerModel::JINARerankerV1TurboEn);
}

#[test]
fn sparse_resolution_turns_an_unlisted_identifier_down() {
    let e = resolve_sparse_model("Qdrant/Splade_PP_en_v2").err().unwrap();
    assert_eq!(e.kind, ErrorKind::ModelResolutionFailure);
    assert_eq!(e.message, "Invalid sparse model: Unknown sparse model: Qdrant/Splade_PP_en_v2");
    assert!(resolve_sparse_model("").is_err());
    assert!(resolve_sparse_model("Qdrant/Splade_PP_en_v1 ").is_err());
    assert!(resolve_sparse_model("Qdrant/Splade_PP_en_v").is_err());
}

#[test]
fn image_resolution_turns_an_unlisted_identifier_down() {
    let e = resolve_image_model("Qdrant/clip-ViT-B-32-text").err().unwrap();
    assert_eq!(e.kind, ErrorKind::ModelResolutionFailure);
    assert_eq!(
        e.message,
        "Invalid image model: Unknown embedding model: Qdrant/clip-ViT-B-32-text"
    );
}

#[test]
fn reranker_resolution_turns_an_unlisted_identifier_down() {
    let e = resolve_reranker_model("BAAI/bge-small-en-v1.5").err().unwrap();
    assert_eq!(e.kind, ErrorKind::ModelResolutionFailure);
    assert_eq!(
        e.message,
        "Invalid reranker model: Unknown reranker model: BAAI/bge-small-en-v1.5"
    );
}

#[test]
fn resolution_guards_the_message() {
    let e = resolve_sparse_model("bad\0name").err().unwrap();
    assert_eq!(e.kind, ErrorKind::ModelResolutionFailure);
    assert_eq!(e.message, "Invalid error message");
}
