use hfendpoints::{
    FormField, HttpError, ResponseFormat, Segment, TranscriptionForm, TranscriptionRequest,
    TranscriptionResponse, Transcription,
};

#[test]
fn segment_builder_all_field_set() {
    if let Ok(segment) = Segment::builder()
        .id(1)
        .start(2.2f32)
        .end(3.8)
        .seek(7)
        .temperature(1.0)
        .text(String::from("Hello"))
        .tokens(vec![1, 2, 3])
        .avg_logprob(2.71)
        .compression_ratio(1.2)
        .no_speech_prob(0.1)
        .build()
    {
        assert_eq!(segment.id, 1);
        assert_eq!(segment.start, 2.2);
        assert_eq!(segment.end, 3.8);
        assert_eq!(segment.seek, 7);
        assert_eq!(segment.temperature, 1.0);
        assert_eq!(segment.text, String::from("Hello"));
        assert_eq!(segment.tokens, vec![1, 2, 3]);
        assert_eq!(segment.avg_logprob, 2.71);
        assert_eq!(segment.compression_ratio, 1.2);
        assert_eq!(segment.no_speech_prob, 0.1);
    } else {
        panic!("Failed to create segment");
    }
}

#[test]
fn segment_builder_with_default_fields() {
    if let Ok(segment) = Segment::builder()
        .id(1)
        .start(2.2f32)
        .end(3.8)
        .temperature(1.0)
        .text(String::from("Hello"))
        .tokens(vec![1, 2, 3])
        .build()
    {
        assert_eq!(segment.id, 1);
        assert_eq!(segment.start, 2.2);
        assert_eq!(segment.end, 3.8);
        assert_eq!(segment.seek, 0);
        assert_eq!(segment.temperature, 1.0);
        assert_eq!(segment.text, String::from("Hello"));
        assert_eq!(segment.tokens, vec![1, 2, 3]);
        assert_eq!(segment.avg_logprob, 0.0);
        assert_eq!(segment.compression_ratio, 0.0);
        assert_eq!(segment.no_speech_prob, 0.0);
    } else {
        panic!("Failed to create segment");
    }
}

#[test]
fn segment_builder_names_first_missing_field() {
    let missing_id = Segment::<f32>::builder().start(1.0).build();
    assert!(matches!(missing_id, Err(HttpError::Validation(m)) if m == "Segment::id is not set"));
    let missing_text = Segment::<f32>::builder()
        .id(2)
        .start(0.0)
        .end(1.0)
        .temperature(0.5)
        .build();
    assert!(matches!(missing_text, Err(HttpError::Validation(m)) if m == "Segment::text is not set"));
    let missing_tokens = Segment::<f32>::builder()
        .id(2)
        .start(0.0)
        .end(1.0)
        .temperature(0.5)
        .text("t".into())
        .build();
    assert!(matches!(missing_tokens, Err(HttpError::Validation(m)) if m == "Segment::tokens is not set"));
}

#[test]
fn validate_fills_in_defaults() {
    let request = TranscriptionRequest::<Vec<u8>, f32>::validate(
        Some(vec![1, 2]),
        "audio/wav".into(),
        None,
        None,
        None,
        None,
    )
    .unwrap();
    assert_eq!(request.file, vec![1, 2]);
    assert_eq!(request.content_type, "audio/wav");
    assert_eq!(request.language, "en");
    assert_eq!(request.prompt, None);
    assert_eq!(request.temperature, 0.0);
    assert_eq!(request.response_format, ResponseFormat::Json);
}

#[test]
fn validate_keeps_given_fields() {
    let request = TranscriptionRequest::<Vec<u8>, f32>::validate(
        Some(vec![9]),
        "audio/mpeg".into(),
        Some("fr".into()),
        Some("bonjour".into()),
        Some(0.4),
        Some("verbose_json".into()),
    )
    .unwrap();
    assert_eq!(request.language, "fr");
    assert_eq!(request.prompt.as_deref(), Some("bonjour"));
    assert_eq!(request.temperature, 0.4);
    assert_eq!(request.response_format, ResponseFormat::VerboseJson);
    let text = TranscriptionRequest::<Vec<u8>, f32>::validate(
        Some(vec![9]),
        "audio/mpeg".into(),
        None,
        None,
        None,
        Some("text".into()),
    )
    .unwrap();
    assert_eq!(text.response_format, ResponseFormat::Text);
}

#[test]
fn validate_requires_file() {
    let result = TranscriptionRequest::<Vec<u8>, f32>::validate(None, "x".into(), None, None, None, None);
    match result {
        Err(HttpError::Validation(m)) => assert_eq!(m, "Required parameter 'file' was not provided"),
        _ => panic!("expected a validation error"),
    }
}

#[test]
fn validate_refuses_unknown_format() {
    let result = TranscriptionRequest::<Vec<u8>, f32>::validate(
        Some(vec![]),
        "x".into(),
        None,
        None,
        None,
        Some("srt".into()),
    );
    match result {
        Err(e @ HttpError::Validation(_)) => {
            assert_eq!(e.status_code(), 400);
            match e {
                HttpError::Validation(m) => assert_eq!(
                    m,
                    "Unknown response_format: srt. Possible values are: 'json', 'verbose_json', 'text'."
                ),
                _ => unreachable!(),
            }
        }
        _ => panic!("expected a validation error"),
    }
}

#[test]
fn form_classifies_field_names() {
    assert_eq!(FormField::classify(&"file".into()).unwrap(), FormField::File);
    assert_eq!(FormField::classify(&"language".into()).unwrap(), FormField::Language);
    assert_eq!(FormField::classify(&"prompt".into()).unwrap(), FormField::Prompt);
    assert_eq!(FormField::classify(&"temperature".into()).unwrap(), FormField::Temperature);
    assert_eq!(FormField::classify(&"response_format".into()).unwrap(), FormField::ResponseFormat);
    match FormField::classify(&"model".into()) {
        Err(HttpError::Validation(m)) => assert_eq!(m, "Unknown field: model"),
        _ => panic!("expected a validation error"),
    }
}

#[test]
fn form_without_file_is_refused_before_dispatch() {
    let (tx, mut rx) = tokio::sync::mpsc::unbounded_channel::<TranscriptionRequest<Vec<u8>, f32>>();
    let mut form: TranscriptionForm<Vec<u8>, f32> = TranscriptionForm::new();
    form.put_text(FormField::Language, "en".into());
    form.put_temperature(0.2);
    match form.finish() {
        Ok(request) => tx.send(request).unwrap(),
        Err(e) => {
            assert!(matches!(&e, HttpError::Validation(m) if m == "Required parameter 'file' was not provided"));
            assert_eq!(e.status_code(), 400);
        }
    }
    drop(tx);
    assert!(rx.try_recv().is_err());
}

#[test]
fn form_gathers_parts() {
    let mut form: TranscriptionForm<Vec<u8>, f32> = TranscriptionForm::new();
    form.put_file(vec![7, 7], None);
    form.put_text(FormField::Prompt, "hi".into());
    form.put_text(FormField::ResponseFormat, "text".into());
    form.put_text(FormField::ResponseFormat, "json".into());
    form.put_temperature(0.3);
    let request = form.finish().unwrap();
    assert_eq!(request.file, vec![7, 7]);
    assert_eq!(request.content_type, "unknown");
    assert_eq!(request.prompt.as_deref(), Some("hi"));
    assert_eq!(request.language, "en");
    assert_eq!(request.temperature, 0.3);
    assert_eq!(request.response_format, ResponseFormat::Json);
}

#[test]
fn response_knows_its_format() {
    let r: TranscriptionResponse<f32> = TranscriptionResponse::Json(Transcription::new("t".into()));
    assert_eq!(r.format(), ResponseFormat::Json);
    let r: TranscriptionResponse<f32> = TranscriptionResponse::Text("t".into());
    assert_eq!(r.format(), ResponseFormat::Text);
    assert_eq!(ResponseFormat::default(), ResponseFormat::Json);
}
