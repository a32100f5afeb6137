use vstd::prelude::*;
use crate::envelope::{EndpointRequest, EndpointResponse, MaybeBatched, Usage};
use crate::error::Error;

verus! {

/// Side from which an over-long input is cut.
#[derive(Clone, Copy, Debug, PartialEq, Eq, Structural)]
pub enum TruncationDirection {
    Left,
    Right,
}

/// One input to embed: a text, or text already tokenized.
#[derive(Clone, Debug, PartialEq)]
pub enum EmbeddingInput {
    Text(String),
    Tokens(Vec<u32>),
}

/// Tuning of an embedding call; every setting is optional.
#[derive(Clone, Debug, PartialEq)]
pub struct EmbeddingParams {
    /// Whether the vector is scaled to length 1.
    pub normalize: Option<bool>,
    /// Name of the prompt put before each input.
    pub prompt_name: Option<String>,
    /// Whether inputs longer than the model takes are cut.
    pub truncate: Option<bool>,
    /// Where inputs are cut, when they are.
    pub truncation_direction: Option<TruncationDirection>,
    /// Length of the vector, for models that can shorten it.
    pub dimension: Option<usize>,
}

impl EmbeddingParams {
    pub fn new(
        normalize: Option<bool>,
        prompt_name: Option<String>,
        truncate: Option<bool>,
        truncation_direction: Option<TruncationDirection>,
        dimension: Option<usize>,
    ) -> (r: Self)
        ensures
            r == (EmbeddingParams { normalize, prompt_name, truncate, truncation_direction, dimension }),
    {
        EmbeddingParams { normalize, prompt_name, truncate, truncation_direction, dimension }
    }
}

impl Default for EmbeddingParams {
    fn default() -> (r: Self)
        ensures
            r == (EmbeddingParams {
                normalize: None,
                prompt_name: None,
                truncate: None,
                truncation_direction: None,
                dimension: None,
            }),
    {
        EmbeddingParams { normalize: None, prompt_name: None, truncate: None, truncation_direction: None, dimension: None }
    }
}

/// A request to embed one input or a batch of them.
pub type EmbeddingRequest = EndpointRequest<MaybeBatched<EmbeddingInput>, EmbeddingParams>;

/// The vectors of an embedding call, one per input, with elements of type `E`.
pub type EmbeddingResponse<E> = EndpointResponse<MaybeBatched<Vec<E>>, Usage>;

/// Encoding of the vectors in an OpenAI-style answer.
#[derive(Clone, Copy, Debug, PartialEq, Eq, Structural)]
pub enum EncodingFormat {
    Float,
    Base64,
}

impl Default for EncodingFormat {
    fn default() -> (r: Self)
        ensures
            r == EncodingFormat::Float,
    {
        EncodingFormat::Float
    }
}

/// One vector of an OpenAI-style answer, with the position of its input.
#[derive(Clone, Debug)]
pub struct Embedding<E> {
    pub index: usize,
    pub embedding: Vec<E>,
}

impl<E> Embedding<E> {
    pub fn new(index: usize, embedding: Vec<E>) -> (r: Self)
        ensures
            r.index == index,
            r.embedding == embedding,
    {
        Embedding { index, embedding }
    }
}

/// An OpenAI-style embedding answer: a list of vectors, the model, the usage.
#[derive(Clone, Debug)]
pub struct OpenAiEmbeddingResponse<E> {
    pub data: Vec<Embedding<E>>,
    pub model: String,
    pub usage: Usage,
}

impl<E> OpenAiEmbeddingResponse<E> {
    pub fn new(data: Vec<Embedding<E>>, model: String, usage: Usage) -> (r: Self)
        ensures
            r.data == data,
            r.model == model,
            r.usage == usage,
    {
        OpenAiEmbeddingResponse { data, model, usage }
    }

    /// The OpenAI-style answer of a backend response: one entry per vector,
    /// indexed from 0 in order, an empty model name, and the reported usage
    /// (zero where none was reported).
    pub fn from_embedding_response(value: EmbeddingResponse<E>) -> (r: Self)
        ensures
            r.data@.len() == value.output.items().len(),
            forall|i: int|
                0 <= i < r.data@.len() ==> (#[trigger] r.data@[i]).index == i && r.data@[i].embedding
                    == value.output.items()[i],
            r.model@.len() == 0,
            value.usage is Some ==> r.usage == value.usage->Some_0,
            value.usage is None ==> r.usage == (Usage { prompt_tokens: 0, total_tokens: 0 }),
    {
        let usage = match value.usage {
            Some(usage) => usage,
            None => Usage::default(),
        };
        let ghost items = value.output.items();
        let data = match value.output {
            MaybeBatched::Single(item) => {
                let mut data: Vec<Embedding<E>> = Vec::new();
                data.push(Embedding::new(0, item));
                data
            },
            MaybeBatched::Batched(mut items_left) => {
                let mut data: Vec<Embedding<E>> = Vec::new();
                let ghost all = items_left@;
                let n = items_left.len();
                let mut index: usize = 0;
                while index < n
                    invariant
                        n == all.len(),
                        index <= n,
                        items_left@.len() == n - index,
                        items_left@ == all.subrange(index as int, n as int),
                        data@.len() == index,
                        forall|i: int|
                            0 <= i < index ==> (#[trigger] data@[i]).index == i && data@[i].embedding == all[i],
                    decreases n - index,
                {
                    let item = items_left.remove(0);
                    data.push(Embedding::new(index, item));
                    index = index + 1;
                }
                data
            },
        };
        OpenAiEmbeddingResponse { data, model: String::new(), usage }
    }
}

impl<E> TryFrom<EmbeddingResponse<E>> for OpenAiEmbeddingResponse<E> {
    type Error = Error;

    fn try_from(value: EmbeddingResponse<E>) -> (r: Result<Self, Error>)
        ensures
            r is Ok,
            r->Ok_0.data@.len() == value.output.items().len(),
            forall|i: int|
                0 <= i < r->Ok_0.data@.len() ==> (#[trigger] r->Ok_0.data@[i]).index == i
                    && r->Ok_0.data@[i].embedding == value.output.items()[i],
            r->Ok_0.model@.len() == 0,
            value.usage is Some ==> r->Ok_0.usage == value.usage->Some_0,
            value.usage is None ==> r->Ok_0.usage == (Usage { prompt_tokens: 0, total_tokens: 0 }),
    {
        Ok(OpenAiEmbeddingResponse::from_embedding_response(value))
    }
}

/// The conversion is stated on `try_from` itself, clause by clause.
impl<E> vstd::std_specs::convert::TryFromSpecImpl<EmbeddingResponse<E>> for OpenAiEmbeddingResponse<E> {
    open spec fn obeys_try_from_spec() -> bool {
        false
    }

    open spec fn try_from_spec(value: EmbeddingResponse<E>) -> Result<Self, Error> {
        vstd::pervasive::arbitrary()
    }
}

/// An OpenAI-style embedding request.
#[derive(Clone, Debug)]
pub struct OpenAiEmbeddingRequest {
    pub encoding_format: EncodingFormat,
    pub input: MaybeBatched<EmbeddingInput>,
    pub model: Option<String>,
    pub dimension: Option<usize>,
    pub user: Option<String>,
}

impl OpenAiEmbeddingRequest {
    /// The backend request: the same inputs, normalized vectors, no other setting.
    pub fn into_embedding_request(self) -> (r: EmbeddingRequest)
        ensures
            r.inputs == self.input,
            r.parameters == (EmbeddingParams {
                normalize: Some(true),
                prompt_name: None,
                truncate: None,
                truncation_direction: None,
                dimension: None,
            }),
    {
        EndpointRequest::new(self.input, EmbeddingParams::new(Some(true), None, None, None, None))
    }
}

/// A Hugging Face inference-style embedding request: the inputs and the settings.
#[derive(Clone, Debug)]
pub struct HuggingFaceInferenceEmbeddingRequest {
    pub inputs: MaybeBatched<EmbeddingInput>,
    pub parameters: EmbeddingParams,
}

impl TryFrom<HuggingFaceInferenceEmbeddingRequest> for EmbeddingRequest {
    type Error = Error;

    fn try_from(value: HuggingFaceInferenceEmbeddingRequest) -> (r: Result<Self, Error>) {
        Ok(EndpointRequest::new(value.inputs, value.parameters))
    }
}

impl vstd::std_specs::convert::TryFromSpecImpl<HuggingFaceInferenceEmbeddingRequest> for EmbeddingRequest {
    open spec fn obeys_try_from_spec() -> bool {
        true
    }

    open spec fn try_from_spec(value: HuggingFaceInferenceEmbeddingRequest) -> Result<Self, Error> {
        Ok(EndpointRequest { inputs: value.inputs, parameters: value.parameters })
    }
}

/// A Hugging Face inference-style embedding answer: the vectors alone.
#[derive(Clone, Debug)]
pub struct HuggingFaceInferenceEmbeddingResponse<E>(pub MaybeBatched<Vec<E>>);

impl<E> TryFrom<EmbeddingResponse<E>> for HuggingFaceInferenceEmbeddingResponse<E> {
    type Error = Error;

    fn try_from(value: EmbeddingResponse<E>) -> (r: Result<Self, Error>) {
        Ok(HuggingFaceInferenceEmbeddingResponse(value.output))
    }
}

impl<E> vstd::std_specs::convert::TryFromSpecImpl<EmbeddingResponse<E>> for HuggingFaceInferenceEmbeddingResponse<E> {
    open spec fn obeys_try_from_spec() -> bool {
        true
    }

    open spec fn try_from_spec(value: EmbeddingResponse<E>) -> Result<Self, Error> {
        Ok(HuggingFaceInferenceEmbeddingResponse(value.output))
    }
}


/// Splits a row-major buffer into its rows of `width` elements, as the
/// vectors of a batch come from a two-dimensional array; a trailing partial
/// row is left out.
#[verifier::loop_isolation(false)]
pub fn rows_of<E: Copy>(buffer: &Vec<E>, width: usize) -> (r: Vec<Vec<E>>)
    requires
        width > 0,
    ensures
        r@.len() == buffer@.len() / (width as nat),
        forall|i: int| 0 <= i < r@.len() ==> (#[trigger] r@[i])@.len() == width,
        forall|i: int, j: int|
            0 <= i < r@.len() && 0 <= j < width ==> #[trigger] r@[i]@[j] == buffer@[i * width + j],
{
    let total = buffer.len();
    let n = total / width;
    let mut rows: Vec<Vec<E>> = Vec::new();
    let mut i: usize = 0;
    let mut start: usize = 0;
    while i < n
        invariant
            width > 0,
            n == buffer@.len() / (width as nat),
            i <= n,
            start == i * width,
            rows@.len() == i,
            forall|a: int| 0 <= a < i ==> (#[trigger] rows@[a])@.len() == width,
            forall|a: int, b: int|
                0 <= a < i && 0 <= b < width ==> #[trigger] rows@[a]@[b] == buffer@[a * width + b],
        decreases n - i,
    {
        assert((i + 1) * width <= buffer@.len()) by (nonlinear_arith)
            requires
                i < n,
                n == buffer@.len() / (width as nat),
                width > 0,
        ;
        assert((i + 1) * width == i * width + width) by (nonlinear_arith);
        let mut row: Vec<E> = Vec::new();
        let mut j: usize = 0;
        while j < width
            invariant
                start + width <= total,
                j <= width,
                row@.len() == j,
                forall|b: int| 0 <= b < j ==> #[trigger] row@[b] == buffer@[start + b],
            decreases width - j,
        {
            row.push(buffer[start + j]);
            j = j + 1;
        }
        rows.push(row);
        i = i + 1;
        start = start + width;
    }
    rows
}

} // verus!
