use fastembed_bridge::{
    dense_outcome, fastembed_float_array_vec_free, fastembed_rerank_result_vec_free,
    fastembed_sparse_embedding_vec_free, rerank_outcome, sparse_outcome, ErrorKind, FloatArray,
    FloatArrayVec, RerankResult, RerankResultC, RerankResultVec, SparseEmbedding,
    SparseEmbeddingC, SparseEmbeddingVec,
};

fn bits(numbers: &[f32]) -> Vec<u32> {
    numbers.iter().map(|x| x.to_bits()).collect()
}

fn numbers(bits: &[u32]) -> Vec<f32> {
    bits.iter().map(|b| f32::from_bits(*b)).collect()
}

#[test]
fn float_array_holds_the_vector_and_its_length() {
    let array = FloatArray::from_embedding(bits(&[0.5, -1.25, 3.0]));
    assert_eq!(array.len, 3);
    assert_eq!(numbers(&array.data), vec![0.5f32, -1.25, 3.0]);
}

#[test]
fn float_array_of_nothing_is_empty() {
    let array = FloatArray::from_embedding(vec![]);
    assert_eq!(array.len, 0);
    assert!(array.data.is_empty());
}

#[test]
fn float_array_keeps_bit_patterns_exactly() {
    let array = FloatArray::from_embedding(vec![0x3f80_0000, 0x7fc0_0001, 0x8000_0000]);
    assert_eq!(array.data, vec![0x3f80_0000, 0x7fc0_0001, 0x8000_0000]);
    assert_eq!(f32::from_bits(array.data[0]), 1.0);
}

#[test]
fn float_array_vec_has_one_array_per_vector() {
    let vec = FloatArrayVec::from_embeddings(vec![bits(&[1.0, 2.0]), bits(&[]), bits(&[3.0])]);
    assert_eq!(vec.len, 3);
    assert_eq!(vec.arrays.len(), 3);
    assert_eq!(vec.arrays[0].len, 2);
    assert_eq!(numbers(&vec.arrays[0].data), vec![1.0f32, 2.0]);
    assert_eq!(vec.arrays[1].len, 0);
    assert_eq!(vec.arrays[2].len, 1);
    assert_eq!(numbers(&vec.arrays[2].data), vec![3.0f32]);
}

#[test]
fn float_array_vec_of_no_vectors_has_length_zero() {
    let vec = FloatArrayVec::from_embeddings(vec![]);
    assert_eq!(vec.len, 0);
    assert!(vec.arrays.is_empty());
}

#[test]
fn float_array_vec_free_releases_every_array() {
    let vec = FloatArrayVec::from_embeddings(vec![bits(&[1.0]), bits(&[2.0]), bits(&[3.0])]);
    assert_eq!(fastembed_float_array_vec_free(Some(vec)), 3);
}

#[test]
fn float_array_vec_free_takes_an_empty_result() {
    let vec = FloatArrayVec::from_embeddings(vec![]);
    assert_eq!(fastembed_float_array_vec_free(Some(vec)), 0);
}

#[test]
fn float_array_vec_free_does_nothing_on_null() {
    assert_eq!(fastembed_float_array_vec_free(None), 0);
}

#[test]
fn float_array_vec_free_goes_by_the_arrays_held() {
    let vec = Box::new(FloatArrayVec {
        arrays: vec![FloatArray { data: vec![1, 2], len: 7 }, FloatArray { data: vec![], len: 0 }],
        len: 9,
    });
    assert_eq!(fastembed_float_array_vec_free(Some(vec)), 2);
}

#[test]
fn sparse_entry_pairs_places_and_weights() {
    let entry = SparseEmbeddingC::from_embedding(SparseEmbedding {
        indices: vec![4, 17, 2],
        values: bits(&[0.25, 1.5, 0.75]),
    });
    assert_eq!(entry.len, 3);
    assert_eq!(entry.indices, vec![4, 17, 2]);
    assert_eq!(numbers(&entry.values), vec![0.25f32, 1.5, 0.75]);
}

#[test]
fn sparse_vec_has_one_entry_per_embedding() {
    let vec = SparseEmbeddingVec::from_embeddings(vec![
        SparseEmbedding { indices: vec![1], values: bits(&[0.5]) },
        SparseEmbedding { indices: vec![], values: vec![] },
        SparseEmbedding { indices: vec![9, 3], values: bits(&[2.0, 4.0]) },
    ]);
    assert_eq!(vec.len, 3);
    assert_eq!(vec.embeddings[0].len, 1);
    assert_eq!(vec.embeddings[1].len, 0);
    assert_eq!(vec.embeddings[2].len, 2);
    assert_eq!(vec.embeddings[2].indices, vec![9, 3]);
    assert_eq!(numbers(&vec.embeddings[2].values), vec![2.0f32, 4.0]);
}

#[test]
fn sparse_vec_free_releases_every_entry() {
    let vec = SparseEmbeddingVec::from_embeddings(vec![
        SparseEmbedding { indices: vec![1], values: bits(&[0.5]) },
        SparseEmbedding { indices: vec![2], values: bits(&[0.25]) },
    ]);
    assert_eq!(fastembed_sparse_embedding_vec_free(Some(vec)), 2);
    assert_eq!(fastembed_sparse_embedding_vec_free(None), 0);
}

#[test]
fn rerank_record_keeps_place_score_and_text() {
    let record = RerankResultC::from_result(RerankResult {
        index: 2,
        score: 0.875f32.to_bits(),
        document: Some("third".to_string()),
    });
    assert_eq!(record.index, 2);
    assert_eq!(f32::from_bits(record.score), 0.875);
    assert_eq!(record.document, Some("third".to_string()));
}

#[test]
fn rerank_record_without_text_has_none_not_an_empty_text() {
    let record = RerankResultC::from_result(RerankResult {
        index: 0,
        score: 0.5f32.to_bits(),
        document: None,
    });
    assert_eq!(record.document, None);
}

#[test]
fn rerank_record_keeps_an_empty_text_apart_from_none() {
    let record = RerankResultC::from_result(RerankResult {
        index: 0,
        score: 0,
        document: Some(String::new()),
    });
    assert_eq!(record.document, Some(String::new()));
}

#[test]
fn rerank_vec_keeps_the_engines_order() {
    let vec = RerankResultVec::from_results(vec![
        RerankResult { index: 1, score: 0.9f32.to_bits(), document: Some("b".to_string()) },
        RerankResult { index: 2, score: 0.4f32.to_bits(), document: Some("c".to_string()) },
        RerankResult { index: 0, score: 0.1f32.to_bits(), document: Some("a".to_string()) },
    ]);
    assert_eq!(vec.len, 3);
    let places: Vec<usize> = vec.results.iter().map(|r| r.index).collect();
    assert_eq!(places, vec![1, 2, 0]);
    let docs = ["a", "b", "c"];
    for record in vec.results.iter() {
        assert!(record.index < docs.len());
        assert_eq!(record.document.as_deref(), Some(docs[record.index]));
    }
}

#[test]
fn rerank_vec_free_releases_every_record() {
    let vec = RerankResultVec::from_results(vec![
        RerankResult { index: 0, score: 1, document: Some("a".to_string()) },
        RerankResult { index: 1, score: 2, document: None },
    ]);
    assert_eq!(fastembed_rerank_result_vec_free(Some(vec)), 2);
    assert_eq!(fastembed_rerank_result_vec_free(None), 0);
}

#[test]
fn dense_outcome_lays_out_the_engines_vectors() {
    let vec = dense_outcome(Ok(vec![bits(&[1.0, 2.0]), bits(&[3.0, 4.0])]), "Embedding failed: ")
        .ok()
        .unwrap();
    assert_eq!(vec.len, 2);
    assert_eq!(numbers(&vec.arrays[1].data), vec![3.0f32, 4.0]);
}

#[test]
fn dense_outcome_of_no_vectors_is_an_empty_result_not_an_error() {
    let vec = dense_outcome(Ok(vec![]), "Embedding failed: ").ok().unwrap();
    assert_eq!(vec.len, 0);
    assert_eq!(fastembed_float_array_vec_free(Some(vec)), 0);
}

#[test]
fn dense_outcome_reports_the_engines_failure() {
    let e = dense_outcome(Err("session closed".to_string()), "Embedding failed: ").err().unwrap();
    assert_eq!(e.kind, ErrorKind::InferenceFailure);
    assert_eq!(e.message, "Embedding failed: session closed");
    let e = dense_outcome(Err("no file".to_string()), "Image embedding failed: ").err().unwrap();
    assert_eq!(e.message, "Image embedding failed: no file");
}

#[test]
fn dense_outcome_guards_the_message() {
    let e = dense_outcome(Err("bad\0text".to_string()), "Embedding failed: ").err().unwrap();
    assert_eq!(e.kind, ErrorKind::InferenceFailure);
    assert_eq!(e.message, "Invalid error message");
}

#[test]
fn sparse_outcome_lays_out_or_reports() {
    let vec = sparse_outcome(Ok(vec![SparseEmbedding { indices: vec![5], values: bits(&[1.0]) }]))
        .ok()
        .unwrap();
    assert_eq!(vec.len, 1);
    assert_eq!(vec.embeddings[0].indices, vec![5]);
    let e = sparse_outcome(Err("out of memory".to_string())).err().unwrap();
    assert_eq!(e.kind, ErrorKind::InferenceFailure);
    assert_eq!(e.message, "Sparse embedding failed: out of memory");
}

#[test]
fn rerank_outcome_lays_out_or_reports() {
    let vec = rerank_outcome(Ok(vec![RerankResult { index: 0, score: 7, document: None }]))
        .ok()
        .unwrap();
    assert_eq!(vec.len, 1);
    assert_eq!(vec.results[0].score, 7);
    let e = rerank_outcome(Err("no logits".to_string())).err().unwrap();
    assert_eq!(e.kind, ErrorKind::InferenceFailure);
    assert_eq!(e.message, "Reranking failed: no logits");
}

#[test]
fn sparse_entry_is_counted_by_its_places() {
    let entry = SparseEmbeddingC::from_embedding(SparseEmbedding {
        indices: vec![1, 2, 3],
        values: bits(&[0.5]),
    });
    assert_eq!(entry.len, 3);
    assert_eq!(entry.indices, vec![1, 2, 3]);
    assert_eq!(numbers(&entry.values), vec![0.5f32]);
}
