use hfendpoints::{
    decode_input, decode_inputs, encode_inputs, rows_of, EmbeddingInput, EmbeddingParams,
    EmbeddingRequest, EmbeddingResponse, EncodingFormat, EndpointResponse,
    HuggingFaceInferenceEmbeddingRequest, HuggingFaceInferenceEmbeddingResponse, MaybeBatched,
    OpenAiEmbeddingRequest, OpenAiEmbeddingResponse, Usage, WireValue,
};

#[test]
fn test_embedding_request_conversion() {
    let request = HuggingFaceInferenceEmbeddingRequest {
        inputs: MaybeBatched::Single(EmbeddingInput::Text("test text".to_owned())),
        parameters: EmbeddingParams::default(),
    };

    let converted: EmbeddingRequest = request.try_into().unwrap();
    assert_eq!(
        converted.inputs,
        MaybeBatched::Single(EmbeddingInput::Text("test text".into()))
    );
}

#[test]
fn test_embedding_response_conversion() {
    let embeddings: Vec<f32> = vec![0.1, 0.2, 0.3];
    let response = EmbeddingResponse {
        output: MaybeBatched::Single(embeddings.clone()),
        usage: None,
    };

    let converted: HuggingFaceInferenceEmbeddingResponse<f32> = response.try_into().unwrap();
    assert_eq!(converted.0, MaybeBatched::Single(embeddings));
}

#[test]
fn test_batched_embedding_request_conversion() {
    let inputs = vec!["test1".to_owned(), "test2".to_owned()]
        .into_iter()
        .map(EmbeddingInput::Text)
        .collect::<Vec<_>>();
    let request = HuggingFaceInferenceEmbeddingRequest {
        inputs: MaybeBatched::Batched(inputs.clone()),
        parameters: EmbeddingParams::default(),
    };

    let converted: EmbeddingRequest = request.try_into().unwrap();
    assert_eq!(converted.inputs, MaybeBatched::Batched(inputs));
}

#[test]
fn test_batched_embedding_response_conversion() {
    let embeddings: Vec<Vec<f32>> = vec![vec![0.1, 0.2], vec![0.3, 0.4]];
    let response = EmbeddingResponse {
        output: MaybeBatched::Batched(embeddings.clone()),
        usage: None,
    };

    let converted: HuggingFaceInferenceEmbeddingResponse<f32> = response.try_into().unwrap();
    assert_eq!(converted.0, MaybeBatched::Batched(embeddings));
}

#[test]
fn test_embedding_response_to_openai_conversion_single() {
    let single_response = EmbeddingResponse {
        output: MaybeBatched::Single(vec![0.1f32, 0.2, 0.3]),
        usage: Some(Usage::new(1, 2)),
    };

    let converted = OpenAiEmbeddingResponse::try_from(single_response).unwrap();
    assert_eq!(converted.data.len(), 1);
    assert_eq!(converted.data[0].embedding, vec![0.1, 0.2, 0.3]);
    assert_eq!(converted.data[0].index, 0);
    assert_eq!(converted.usage.prompt_tokens, 1);
    assert_eq!(converted.usage.total_tokens, 2);

    let response_without_usage = EmbeddingResponse {
        output: MaybeBatched::Single(vec![0.1f32]),
        usage: None,
    };

    let converted = OpenAiEmbeddingResponse::try_from(response_without_usage).unwrap();
    assert_eq!(converted.data.len(), 1);
    assert_eq!(converted.data[0].embedding, vec![0.1]);
    assert_eq!(converted.data[0].index, 0);
    assert_eq!(converted.usage.prompt_tokens, 0);
    assert_eq!(converted.usage.total_tokens, 0);
}

#[test]
fn test_embedding_response_to_openai_conversion_single_no_usage() {
    let response_without_usage = EmbeddingResponse {
        output: MaybeBatched::Single(vec![0.1f32]),
        usage: None,
    };

    let converted = OpenAiEmbeddingResponse::try_from(response_without_usage).unwrap();
    assert_eq!(converted.data.len(), 1);
    assert_eq!(converted.data[0].embedding, vec![0.1]);
    assert_eq!(converted.data[0].index, 0);
    assert_eq!(converted.usage.prompt_tokens, 0);
    assert_eq!(converted.usage.total_tokens, 0);
}

#[test]
fn test_embedding_response_to_openai_conversion_batched() {
    let batched_response = EmbeddingResponse {
        output: MaybeBatched::Batched(vec![vec![0.1f32, 0.2], vec![0.3, 0.4]]),
        usage: Some(Usage::new(2, 3)),
    };

    let converted = OpenAiEmbeddingResponse::try_from(batched_response).unwrap();
    assert_eq!(converted.data.len(), 2);
    assert_eq!(converted.data[0].embedding, vec![0.1, 0.2]);
    assert_eq!(converted.data[0].index, 0);
    assert_eq!(converted.data[1].embedding, vec![0.3, 0.4]);
    assert_eq!(converted.data[1].index, 1);
    assert_eq!(converted.usage.prompt_tokens, 2);
    assert_eq!(converted.usage.total_tokens, 3);

    let response_without_usage = EmbeddingResponse {
        output: MaybeBatched::Batched(vec![vec![0.1f32, 0.2], vec![0.3, 0.4]]),
        usage: None,
    };

    let converted = OpenAiEmbeddingResponse::try_from(response_without_usage).unwrap();
    assert_eq!(converted.data.len(), 2);
    assert_eq!(converted.data[0].embedding, vec![0.1, 0.2]);
    assert_eq!(converted.data[0].index, 0);
    assert_eq!(converted.data[1].embedding, vec![0.3, 0.4]);
    assert_eq!(converted.data[1].index, 1);
    assert_eq!(converted.usage.prompt_tokens, 0);
    assert_eq!(converted.usage.total_tokens, 0);
}

#[test]
fn test_embedding_response_to_openai_conversion_batched_no_usage() {
    let response_without_usage = EmbeddingResponse {
        output: MaybeBatched::Batched(vec![vec![0.1f32, 0.2], vec![0.3, 0.4]]),
        usage: None,
    };

    let converted = OpenAiEmbeddingResponse::try_from(response_without_usage).unwrap();
    assert_eq!(converted.data.len(), 2);
    assert_eq!(converted.data[0].embedding, vec![0.1, 0.2]);
    assert_eq!(converted.data[0].index, 0);
    assert_eq!(converted.data[1].embedding, vec![0.3, 0.4]);
    assert_eq!(converted.data[1].index, 1);
    assert_eq!(converted.usage.prompt_tokens, 0);
    assert_eq!(converted.usage.total_tokens, 0);
}

#[test]
fn openai_answer_of_empty_batch_is_empty() {
    let response: EmbeddingResponse<f32> = EndpointResponse::new(MaybeBatched::Batched(vec![]), None);
    let converted = OpenAiEmbeddingResponse::from_embedding_response(response);
    assert!(converted.data.is_empty());
    assert!(converted.model.is_empty());
}

#[test]
fn openai_request_asks_for_normalized_vectors() {
    let request = OpenAiEmbeddingRequest {
        encoding_format: EncodingFormat::default(),
        input: MaybeBatched::Single(EmbeddingInput::Text("hello".into())),
        model: Some("m".into()),
        dimension: Some(64),
        user: None,
    };
    assert_eq!(request.encoding_format, EncodingFormat::Float);
    let converted = request.into_embedding_request();
    assert_eq!(converted.inputs, MaybeBatched::Single(EmbeddingInput::Text("hello".into())));
    assert_eq!(converted.parameters.normalize, Some(true));
    assert_eq!(converted.parameters.dimension, None);
}

#[test]
fn rows_of_splits_row_major_buffer() {
    let flat: Vec<f32> = vec![1.0, 2.0, 3.0, 4.0, 5.0, 6.0];
    assert_eq!(rows_of(&flat, 3), vec![vec![1.0, 2.0, 3.0], vec![4.0, 5.0, 6.0]]);
    assert_eq!(rows_of(&flat, 2).len(), 3);
    assert_eq!(rows_of(&flat, 4), vec![vec![1.0, 2.0, 3.0, 4.0]]);
    assert!(rows_of(&Vec::<f32>::new(), 3).is_empty());
}

fn text(s: &str) -> EmbeddingInput {
    EmbeddingInput::Text(s.to_string())
}

#[test]
fn single_text_round_trips_as_single() {
    let m = MaybeBatched::Single(text("x"));
    let wire = encode_inputs(&m);
    assert!(matches!(&wire, WireValue::Text(s) if s == "x"));
    assert_eq!(decode_inputs(&wire), Some(MaybeBatched::Single(text("x"))));
}

#[test]
fn batched_texts_round_trip_as_batched() {
    let m = MaybeBatched::Batched(vec![text("a"), text("b")]);
    let wire = encode_inputs(&m);
    assert!(matches!(&wire, WireValue::Array(items) if items.len() == 2));
    assert_eq!(decode_inputs(&wire), Some(m));
}

#[test]
fn tokens_round_trip() {
    let single = MaybeBatched::Single(EmbeddingInput::Tokens(vec![1, 2, 3]));
    assert_eq!(decode_inputs(&encode_inputs(&single)), Some(single));
    let batch = MaybeBatched::Batched(vec![EmbeddingInput::Tokens(vec![1]), text("b")]);
    assert_eq!(decode_inputs(&encode_inputs(&batch)), Some(batch));
}

#[test]
fn empty_batch_reads_back_as_empty_token_list() {
    let wire = encode_inputs(&MaybeBatched::Batched(vec![]));
    assert_eq!(
        decode_inputs(&wire),
        Some(MaybeBatched::Single(EmbeddingInput::Tokens(vec![])))
    );
}

#[test]
fn decode_refuses_other_shapes() {
    assert_eq!(decode_inputs(&WireValue::Other), None);
    assert_eq!(decode_inputs(&WireValue::Integer(3)), None);
    assert_eq!(decode_input(&WireValue::Array(vec![WireValue::Integer(1u64 << 32)])), None);
    assert_eq!(
        decode_inputs(&WireValue::Array(vec![WireValue::Text("a".into()), WireValue::Other])),
        None
    );
}
