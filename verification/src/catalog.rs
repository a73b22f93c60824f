//! The model catalogs: which models each kind of engine supports, laid out
//! for the caller.

use vstd::prelude::*;
use vstd::string::*;
use crate::engine::{
    ascii_case_equal, image_catalog, image_model_known, lists_code, model_codes,
    reranker_catalog, reranker_codes, reranker_model_known, sparse_catalog, sparse_model_known,
    text_catalog, ModelInfo, RerankerModelInfo,
};
use crate::c_text::{c_text, c_text_or_empty, has_nul};

verus! {

/// One supported model: its identifier, what it is, and the length of its
/// vectors. Both texts can be handed out as C strings.
pub struct ModelInfoC {
    pub model_code: String,
    pub description: String,
    pub dim: usize,
}

/// What a model descriptor says.
pub struct ModelView {
    pub model_code: Seq<char>,
    pub description: Seq<char>,
    pub dim: usize,
}

impl View for ModelInfoC {
    type V = ModelView;

    open spec fn view(&self) -> ModelView {
        ModelView {
            model_code: self.model_code@,
            description: self.description@,
            dim: self.dim,
        }
    }
}

/// The descriptor of an entry of an embedding catalog.
pub open spec fn descriptor_of(info: ModelInfo) -> ModelView {
    ModelView {
        model_code: c_text(info.model_code@),
        description: c_text(info.description@),
        dim: info.dim,
    }
}

/// The descriptor of an entry of the reranking catalog. A reranking model
/// has no vectors, so the dimension is zero.
pub open spec fn reranker_descriptor_of(info: RerankerModelInfo) -> ModelView {
    ModelView {
        model_code: c_text(info.model_code@),
        description: c_text(info.description@),
        dim: 0,
    }
}

/// The descriptors of an embedding catalog, in its order.
pub open spec fn descriptors_of(models: Seq<ModelInfo>) -> Seq<ModelView> {
    Seq::new(models.len(), |i: int| descriptor_of(models[i]))
}

/// The descriptors of the reranking catalog, in its order.
pub open spec fn reranker_descriptors_of(models: Seq<RerankerModelInfo>) -> Seq<ModelView> {
    Seq::new(models.len(), |i: int| reranker_descriptor_of(models[i]))
}

/// The codes of a sequence of descriptors, in its order.
pub open spec fn codes_of(descriptors: Seq<ModelView>) -> Seq<Seq<char>> {
    Seq::new(descriptors.len(), |i: int| descriptors[i].model_code)
}

impl ModelInfoC {
    /// Both texts can be handed out as C strings.
    pub open spec fn wf(&self) -> bool {
        &&& !has_nul(self.model_code@)
        &&& !has_nul(self.description@)
    }

    /// Lays out an entry of an embedding catalog.
    pub fn from_info(info: ModelInfo) -> (descriptor: ModelInfoC)
        ensures
            descriptor@ == descriptor_of(info),
            descriptor.wf(),
    {
        let ModelInfo { model_code, description, dim } = info;
        ModelInfoC {
            model_code: c_text_or_empty(model_code),
            description: c_text_or_empty(description),
            dim,
        }
    }

    /// Lays out an entry of the reranking catalog.
    pub fn from_reranker_info(info: RerankerModelInfo) -> (descriptor: ModelInfoC)
        ensures
            descriptor@ == reranker_descriptor_of(info),
            descriptor.wf(),
    {
        let RerankerModelInfo { model_code, description } = info;
        ModelInfoC {
            model_code: c_text_or_empty(model_code),
            description: c_text_or_empty(description),
            dim: 0,
        }
    }
}

/// The supported models of one kind of engine.
pub struct ModelInfoVec {
    pub models: Vec<ModelInfoC>,
    pub len: usize,
}

impl View for ModelInfoVec {
    type V = Seq<ModelView>;

    open spec fn view(&self) -> Seq<ModelView> {
        Seq::new(self.models@.len(), |i: int| self.models@[i]@)
    }
}

impl ModelInfoVec {
    /// The count is that of the descriptors held, and each is well formed.
    pub open spec fn wf(&self) -> bool {
        &&& self.len == self.models@.len()
        &&& forall|i: int| 0 <= i < self.models@.len() ==> (#[trigger] self.models@[i]).wf()
    }

    /// Lays out an embedding catalog, one descriptor for each entry, in the
    /// catalog's order.
    pub fn from_catalog(models: Vec<ModelInfo>) -> (vec: Box<ModelInfoVec>)
        ensures
            vec@ == descriptors_of(models@),
            vec.wf(),
    {
        let ghost rows = descriptors_of(models@);
        let mut descriptors: Vec<ModelInfoC> = Vec::new();
        for info in it: models.into_iter()
            invariant
                descriptors_of(it.seq()) == rows,
                descriptors.len() == it.index(),
                forall|j: int|
                    0 <= j < descriptors.len() ==> (#[trigger] descriptors@[j])@ == rows[j],
                forall|j: int| 0 <= j < descriptors.len() ==> (#[trigger] descriptors@[j]).wf(),
        {
            assert(rows[it.index() as int] == descriptor_of(it.seq()[it.index() as int]));
            descriptors.push(ModelInfoC::from_info(info));
        }
        let len = descriptors.len();
        let vec = Box::new(ModelInfoVec { models: descriptors, len });
        assert(vec@ =~= rows);
        vec
    }

    /// Lays out the reranking catalog, one descriptor for each entry, in the
    /// catalog's order.
    pub fn from_reranker_catalog(models: Vec<RerankerModelInfo>) -> (vec: Box<ModelInfoVec>)
        ensures
            vec@ == reranker_descriptors_of(models@),
            vec.wf(),
    {
        let ghost rows = reranker_descriptors_of(models@);
        let mut descriptors: Vec<ModelInfoC> = Vec::new();
        for info in it: models.into_iter()
            invariant
                reranker_descriptors_of(it.seq()) == rows,
                descriptors.len() == it.index(),
                forall|j: int|
                    0 <= j < descriptors.len() ==> (#[trigger] descriptors@[j])@ == rows[j],
                forall|j: int| 0 <= j < descriptors.len() ==> (#[trigger] descriptors@[j]).wf(),
        {
            assert(rows[it.index() as int] == reranker_descriptor_of(
                it.seq()[it.index() as int],
            ));
            descriptors.push(ModelInfoC::from_reranker_info(info));
        }
        let len = descriptors.len();
        let vec = Box::new(ModelInfoVec { models: descriptors, len });
        assert(vec@ =~= rows);
        vec
    }
}

/// Lists the text embedding models. The list is never empty.
pub fn fastembed_text_embedding_list_supported_models() -> (vec: Box<ModelInfoVec>)
    ensures
        vec.wf(),
        vec@.len() > 0,
{
    ModelInfoVec::from_catalog(text_catalog())
}

/// Lists the sparse embedding models. The list is never empty, and its
/// codes are the identifiers that the constructor takes: an identifier is
/// known exactly if it is a listed code up to letter case.
pub fn fastembed_sparse_text_embedding_list_supported_models() -> (vec: Box<ModelInfoVec>)
    ensures
        vec.wf(),
        vec@.len() > 0,
        forall|code: Seq<char>| #[trigger]
            sparse_model_known(code) <==> lists_code(codes_of(vec@), code),
        forall|i: int| 0 <= i < vec@.len() ==> sparse_model_known((#[trigger] vec@[i]).model_code),
{
    let models = sparse_catalog();
    let ghost codes = model_codes(models@);
    let vec = ModelInfoVec::from_catalog(models);
    assert(codes_of(vec@) =~= codes) by {
        assert forall|i: int| 0 <= i < codes.len() implies codes_of(vec@)[i] == codes[i] by {
            assert(!has_nul(codes[i]));
        }
    }
    assert forall|i: int| 0 <= i < vec@.len() implies lists_code(
        codes_of(vec@),
        (#[trigger] vec@[i]).model_code,
    ) by {
        assert(ascii_case_equal(codes_of(vec@)[i], vec@[i].model_code));
    }
    vec
}

/// Lists the image embedding models. The list is never empty, and its codes
/// are the identifiers that the constructor takes: an identifier is known
/// exactly if it is a listed code up to letter case.
pub fn fastembed_image_embedding_list_supported_models() -> (vec: Box<ModelInfoVec>)
    ensures
        vec.wf(),
        vec@.len() > 0,
        forall|code: Seq<char>| #[trigger]
            image_model_known(code) <==> lists_code(codes_of(vec@), code),
        forall|i: int| 0 <= i < vec@.len() ==> image_model_known((#[trigger] vec@[i]).model_code),
{
    let models = image_catalog();
    let ghost codes = model_codes(models@);
    let vec = ModelInfoVec::from_catalog(models);
    assert(codes_of(vec@) =~= codes) by {
        assert forall|i: int| 0 <= i < codes.len() implies codes_of(vec@)[i] == codes[i] by {
            assert(!has_nul(codes[i]));
        }
    }
    assert forall|i: int| 0 <= i < vec@.len() implies lists_code(
        codes_of(vec@),
        (#[trigger] vec@[i]).model_code,
    ) by {
        assert(ascii_case_equal(codes_of(vec@)[i], vec@[i].model_code));
    }
    vec
}

/// Lists the reranking models, each with dimension zero. The list is never
/// empty, and its codes are the identifiers that the constructor takes: an
/// identifier is known exactly if it is a listed code up to letter case.
pub fn fastembed_text_rerank_list_supported_models() -> (vec: Box<ModelInfoVec>)
    ensures
        vec.wf(),
        vec@.len() > 0,
        forall|i: int| 0 <= i < vec@.len() ==> (#[trigger] vec@[i]).dim == 0,
        forall|code: Seq<char>| #[trigger]
            reranker_model_known(code) <==> lists_code(codes_of(vec@), code),
        forall|i: int| 0 <= i < vec@.len() ==> reranker_model_known((#[trigger] vec@[i]).model_code),
{
    let models = reranker_catalog();
    let ghost codes = reranker_codes(models@);
    let vec = ModelInfoVec::from_reranker_catalog(models);
    assert(codes_of(vec@) =~= codes) by {
        assert forall|i: int| 0 <= i < codes.len() implies codes_of(vec@)[i] == codes[i] by {
            assert(!has_nul(codes[i]));
        }
    }
    assert forall|i: int| 0 <= i < vec@.len() implies lists_code(
        codes_of(vec@),
        (#[trigger] vec@[i]).model_code,
    ) by {
        assert(ascii_case_equal(codes_of(vec@)[i], vec@[i].model_code));
    }
    vec
}

/// Releases the texts of every descriptor, the descriptors and the list
/// itself, and says how many descriptors went. Nothing happens on `None`.
pub fn fastembed_model_info_vec_free(vec: Option<Box<ModelInfoVec>>) -> (released: usize)
    ensures
        released == match vec {
            Some(v) => v.models@.len(),
            None => 0,
        },
{
    match vec {
        None => 0,
        Some(v) => {
            let ModelInfoVec { models, len: _ } = *v;
            let total = models.len();
            let mut released: usize = 0;
            for descriptor in it: models.into_iter()
                invariant
                    it.seq().len() == total,
                    released == it.index(),
            {
                let ModelInfoC { model_code, description, dim: _ } = descriptor;
                let _ = model_code;
                let _ = description;
                released += 1;
            }
            released
        },
    }
}

} // verus!
