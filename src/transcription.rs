use vstd::prelude::*;
use crate::error::HttpError;
use std::ops::Deref;

verus! {

/// Shape of a transcription answer on the wire.
#[derive(Clone, Copy, Debug, PartialEq, Eq, Structural)]
pub enum ResponseFormat {
    /// `{text}`.
    Json,
    /// Plain text.
    Text,
    /// `{text, duration, language, segments}`.
    VerboseJson,
}

impl Default for ResponseFormat {
    fn default() -> (r: Self)
        ensures
            r == ResponseFormat::Json,
    {
        ResponseFormat::Json
    }
}

/// The format a `response_format` field names, if any.
pub open spec fn format_named(name: Seq<char>) -> Option<ResponseFormat> {
    if name == "json"@ {
        Some(ResponseFormat::Json)
    } else if name == "verbose_json"@ {
        Some(ResponseFormat::VerboseJson)
    } else if name == "text"@ {
        Some(ResponseFormat::Text)
    } else {
        None
    }
}

impl ResponseFormat {
    /// The format whose wire name is `name`: `json`, `verbose_json` or `text`.
    pub fn from_name(name: &String) -> (r: Option<ResponseFormat>)
        ensures
            r == format_named(name@),
    {
        if *name == String::from_str("json") {
            Some(ResponseFormat::Json)
        } else if *name == String::from_str("verbose_json") {
            Some(ResponseFormat::VerboseJson)
        } else if *name == String::from_str("text") {
            Some(ResponseFormat::Text)
        } else {
            None
        }
    }
}

/// Language assumed where the request names none.
pub open spec fn default_language() -> Seq<char> {
    "en"@
}

pub open spec fn missing_file_message() -> Seq<char> {
    "Required parameter 'file' was not provided"@
}

pub open spec fn unknown_format_message(name: Seq<char>) -> Seq<char> {
    "Unknown response_format: "@ + name
        + ". Possible values are: 'json', 'verbose_json', 'text'."@
}

pub open spec fn unknown_field_message(name: Seq<char>) -> Seq<char> {
    "Unknown field: "@ + name
}

/// A validated transcription request: the audio payload `B` and its
/// settings, with the sampling temperature as a number of type `F`.
#[derive(Clone, Debug)]
pub struct TranscriptionRequest<B, F> {
    /// The audio file, as received.
    pub file: B,
    /// Media type the client declared for the file.
    pub content_type: String,
    /// Language of the audio.
    pub language: String,
    /// Text guiding the model's style, or continuing a previous segment.
    pub prompt: Option<String>,
    /// Sampling temperature.
    pub temperature: F,
    /// Shape of the answer.
    pub response_format: ResponseFormat,
}

impl<B, F: Default> TranscriptionRequest<B, F> {
    /// Checks the decoded fields of a transcription request and fills in the
    /// defaults: `file` is required; `response_format` must name a known
    /// format and is `json` where absent; `language` is `en` and the
    /// temperature `F`'s default where absent.
    pub fn validate(
        file: Option<B>,
        content_type: String,
        language: Option<String>,
        prompt: Option<String>,
        temperature: Option<F>,
        response_format: Option<String>,
    ) -> (r: Result<Self, HttpError>)
        ensures
            file is None ==> r == Err::<Self, HttpError>(HttpError::Validation(r->Err_0->Validation_0))
                && r->Err_0->Validation_0@ == missing_file_message(),
            file is Some && response_format is Some && format_named(response_format->Some_0@) is None
                ==> r == Err::<Self, HttpError>(HttpError::Validation(r->Err_0->Validation_0))
                && r->Err_0->Validation_0@ == unknown_format_message(response_format->Some_0@),
            file is Some && (response_format is None || format_named(response_format->Some_0@) is Some)
                ==> r is Ok,
            r is Ok ==> {
                let q = r->Ok_0;
                &&& file == Some(q.file)
                &&& q.content_type == content_type
                &&& q.prompt == prompt
                &&& (language is Some ==> q.language == language->Some_0)
                &&& (language is None ==> q.language@ == default_language())
                &&& (temperature is Some ==> q.temperature == temperature->Some_0)
                &&& (temperature is None ==> F::default.ensures((), q.temperature))
                &&& (response_format is None ==> q.response_format == ResponseFormat::Json)
                &&& (response_format is Some ==> Some(q.response_format) == format_named(
                    response_format->Some_0@,
                ))
            },
    {
        let file = match file {
            Some(file) => file,
            None => {
                return Err(HttpError::Validation(String::from_str("Required parameter 'file' was not provided")));
            },
        };
        let response_format = match response_format {
            None => ResponseFormat::Json,
            Some(name) => match ResponseFormat::from_name(&name) {
                Some(format) => format,
                None => {
                    let message = String::from_str("Unknown response_format: ").concat(name.deref()).concat(
                        ". Possible values are: 'json', 'verbose_json', 'text'.",
                    );
                    return Err(HttpError::Validation(message));
                },
            },
        };
        let language = match language {
            Some(language) => language,
            None => String::from_str("en"),
        };
        let temperature = match temperature {
            Some(t) => t,
            None => F::default(),
        };
        Ok(TranscriptionRequest { file, content_type, language, prompt, temperature, response_format })
    }
}


/// A part of a transcription form, by its field name.
#[derive(Clone, Copy, Debug, PartialEq, Eq, Structural)]
pub enum FormField {
    File,
    Language,
    Prompt,
    Temperature,
    ResponseFormat,
}

/// The part a field name designates, if the form has it.
pub open spec fn field_named(name: Seq<char>) -> Option<FormField> {
    if name == "file"@ {
        Some(FormField::File)
    } else if name == "language"@ {
        Some(FormField::Language)
    } else if name == "prompt"@ {
        Some(FormField::Prompt)
    } else if name == "temperature"@ {
        Some(FormField::Temperature)
    } else if name == "response_format"@ {
        Some(FormField::ResponseFormat)
    } else {
        None
    }
}

impl FormField {
    /// The part named `name`; any other name fails the request with
    /// `Validation("Unknown field: <name>")`.
    pub fn classify(name: &String) -> (r: Result<FormField, HttpError>)
        ensures
            field_named(name@) is Some ==> r == Ok::<FormField, HttpError>(field_named(name@)->Some_0),
            field_named(name@) is None ==> r is Err && r->Err_0 is Validation
                && r->Err_0->Validation_0@ == unknown_field_message(name@),
    {
        if *name == String::from_str("file") {
            Ok(FormField::File)
        } else if *name == String::from_str("language") {
            Ok(FormField::Language)
        } else if *name == String::from_str("prompt") {
            Ok(FormField::Prompt)
        } else if *name == String::from_str("temperature") {
            Ok(FormField::Temperature)
        } else if *name == String::from_str("response_format") {
            Ok(FormField::ResponseFormat)
        } else {
            Err(HttpError::Validation(String::from_str("Unknown field: ").concat(name.deref())))
        }
    }
}

/// Media type recorded for a file part that declares none.
pub open spec fn unknown_content_type() -> Seq<char> {
    "unknown"@
}

/// The fields of a multipart transcription form gathered so far; a later
/// part of the same name replaces an earlier one.
#[derive(Clone, Debug)]
pub struct TranscriptionForm<B, F> {
    /// The audio payload and its media type.
    pub file: Option<(B, String)>,
    pub language: Option<String>,
    pub prompt: Option<String>,
    pub temperature: Option<F>,
    pub response_format: Option<String>,
}

impl<B, F: Default> TranscriptionForm<B, F> {
    /// A form with no part yet.
    pub fn new() -> (r: Self)
        ensures
            r.file is None,
            r.language is None,
            r.prompt is None,
            r.temperature is None,
            r.response_format is None,
    {
        TranscriptionForm { file: None, language: None, prompt: None, temperature: None, response_format: None }
    }

    /// Records the file part, with the media type it declared (`unknown` where none).
    pub fn put_file(&mut self, bytes: B, content_type: Option<String>)
        ensures
            final(self).file is Some,
            final(self).file->Some_0.0 == bytes,
            content_type is Some ==> final(self).file->Some_0.1 == content_type->Some_0,
            content_type is None ==> final(self).file->Some_0.1@ == unknown_content_type(),
            final(self).language == old(self).language,
            final(self).prompt == old(self).prompt,
            final(self).temperature == old(self).temperature,
            final(self).response_format == old(self).response_format,
    {
        let content_type = match content_type {
            Some(c) => c,
            None => String::from_str("unknown"),
        };
        self.file = Some((bytes, content_type));
    }

    /// Records a text part; the file and temperature parts are not text and
    /// leave the form as it was.
    pub fn put_text(&mut self, field: FormField, text: String)
        ensures
            field is Language ==> final(self).language == Some(text),
            field is Prompt ==> final(self).prompt == Some(text),
            field is ResponseFormat ==> final(self).response_format == Some(text),
            !(field is Language) ==> final(self).language == old(self).language,
            !(field is Prompt) ==> final(self).prompt == old(self).prompt,
            !(field is ResponseFormat) ==> final(self).response_format == old(self).response_format,
            final(self).file == old(self).file,
            final(self).temperature == old(self).temperature,
    {
        match field {
            FormField::Language => self.language = Some(text),
            FormField::Prompt => self.prompt = Some(text),
            FormField::ResponseFormat => self.response_format = Some(text),
            FormField::File | FormField::Temperature => {},
        }
    }

    /// Records the temperature part, already read as a number.
    pub fn put_temperature(&mut self, temperature: F)
        ensures
            final(self).temperature == Some(temperature),
            final(self).file == old(self).file,
            final(self).language == old(self).language,
            final(self).prompt == old(self).prompt,
            final(self).response_format == old(self).response_format,
    {
        self.temperature = Some(temperature);
    }

    /// The request the gathered parts make, validated as `TranscriptionRequest::validate` does.
    pub fn finish(self) -> (r: Result<TranscriptionRequest<B, F>, HttpError>)
        ensures
            self.file is None ==> r is Err && r->Err_0 is Validation
                && r->Err_0->Validation_0@ == missing_file_message(),
            self.file is Some && self.response_format is Some && format_named(
                self.response_format->Some_0@,
            ) is None ==> r is Err && r->Err_0 is Validation
                && r->Err_0->Validation_0@ == unknown_format_message(self.response_format->Some_0@),
            self.file is Some && (self.response_format is None || format_named(
                self.response_format->Some_0@,
            ) is Some) ==> r is Ok,
            r is Ok ==> {
                let q = r->Ok_0;
                &&& self.file == Some((q.file, q.content_type))
                &&& q.prompt == self.prompt
                &&& (self.language is Some ==> q.language == self.language->Some_0)
                &&& (self.language is None ==> q.language@ == default_language())
                &&& (self.temperature is Some ==> q.temperature == self.temperature->Some_0)
                &&& (self.temperature is None ==> F::default.ensures((), q.temperature))
                &&& (self.response_format is None ==> q.response_format == ResponseFormat::Json)
                &&& (self.response_format is Some ==> Some(q.response_format) == format_named(
                    self.response_format->Some_0@,
                ))
            },
    {
        let (file, content_type) = match self.file {
            Some((bytes, content_type)) => (Some(bytes), content_type),
            None => (None, String::new()),
        };
        TranscriptionRequest::validate(
            file,
            content_type,
            self.language,
            self.prompt,
            self.temperature,
            self.response_format,
        )
    }
}


/// One timed segment of a transcription, with numbers of type `F` for times,
/// temperature and scores.
#[derive(Clone, Debug)]
pub struct Segment<F> {
    pub id: u16,
    /// Start time in seconds.
    pub start: F,
    /// End time in seconds.
    pub end: F,
    pub seek: u16,
    pub temperature: F,
    pub text: String,
    pub tokens: Vec<u32>,
    pub avg_logprob: F,
    pub compression_ratio: F,
    pub no_speech_prob: F,
}

/// Gathers the fields of a `Segment`; `build` checks that the required ones are set.
#[derive(Clone, Debug)]
pub struct SegmentBuilder<F> {
    pub id: Option<u16>,
    pub start: Option<F>,
    pub end: Option<F>,
    pub seek: Option<u16>,
    pub temperature: Option<F>,
    pub text: Option<String>,
    pub tokens: Option<Vec<u32>>,
    pub avg_logprob: Option<F>,
    pub compression_ratio: Option<F>,
    pub no_speech_prob: Option<F>,
}

/// The message naming the first required field, in declaration order, that is not set.
pub open spec fn first_unset<F>(b: SegmentBuilder<F>) -> Option<Seq<char>> {
    if b.id is None {
        Some("Segment::id is not set"@)
    } else if b.start is None {
        Some("Segment::start is not set"@)
    } else if b.end is None {
        Some("Segment::end is not set"@)
    } else if b.temperature is None {
        Some("Segment::temperature is not set"@)
    } else if b.text is None {
        Some("Segment::text is not set"@)
    } else if b.tokens is None {
        Some("Segment::tokens is not set"@)
    } else {
        None
    }
}

impl<F: Default> Segment<F> {
    /// A builder with no field set.
    pub fn builder() -> (r: SegmentBuilder<F>)
        ensures
            r.id is None && r.start is None && r.end is None && r.seek is None,
            r.temperature is None && r.text is None && r.tokens is None,
            r.avg_logprob is None && r.compression_ratio is None && r.no_speech_prob is None,
    {
        SegmentBuilder {
            id: None,
            start: None,
            end: None,
            seek: None,
            temperature: None,
            text: None,
            tokens: None,
            avg_logprob: None,
            compression_ratio: None,
            no_speech_prob: None,
        }
    }
}

impl<F: Default> SegmentBuilder<F> {
    pub fn id(self, id: u16) -> (r: Self)
        ensures
            r == (SegmentBuilder { id: Some(id), ..self }),
    {
        SegmentBuilder { id: Some(id), ..self }
    }

    pub fn start(self, start: F) -> (r: Self)
        ensures
            r == (SegmentBuilder { start: Some(start), ..self }),
    {
        SegmentBuilder { start: Some(start), ..self }
    }

    pub fn end(self, end: F) -> (r: Self)
        ensures
            r == (SegmentBuilder { end: Some(end), ..self }),
    {
        SegmentBuilder { end: Some(end), ..self }
    }

    pub fn seek(self, seek: u16) -> (r: Self)
        ensures
            r == (SegmentBuilder { seek: Some(seek), ..self }),
    {
        SegmentBuilder { seek: Some(seek), ..self }
    }

    pub fn temperature(self, temperature: F) -> (r: Self)
        ensures
            r == (SegmentBuilder { temperature: Some(temperature), ..self }),
    {
        SegmentBuilder { temperature: Some(temperature), ..self }
    }

    pub fn text(self, text: String) -> (r: Self)
        ensures
            r == (SegmentBuilder { text: Some(text), ..self }),
    {
        SegmentBuilder { text: Some(text), ..self }
    }

    pub fn tokens(self, tokens: Vec<u32>) -> (r: Self)
        ensures
            r == (SegmentBuilder { tokens: Some(tokens), ..self }),
    {
        SegmentBuilder { tokens: Some(tokens), ..self }
    }

    pub fn avg_logprob(self, avg_logprob: F) -> (r: Self)
        ensures
            r == (SegmentBuilder { avg_logprob: Some(avg_logprob), ..self }),
    {
        SegmentBuilder { avg_logprob: Some(avg_logprob), ..self }
    }

    pub fn compression_ratio(self, compression_ratio: F) -> (r: Self)
        ensures
            r == (SegmentBuilder { compression_ratio: Some(compression_ratio), ..self }),
    {
        SegmentBuilder { compression_ratio: Some(compression_ratio), ..self }
    }

    pub fn no_speech_prob(self, no_speech_prob: F) -> (r: Self)
        ensures
            r == (SegmentBuilder { no_speech_prob: Some(no_speech_prob), ..self }),
    {
        SegmentBuilder { no_speech_prob: Some(no_speech_prob), ..self }
    }

    /// The segment, where id, start, end, temperature, text and tokens are
    /// set; seek is 0 and the scores are `F`'s default where unset. Otherwise
    /// a validation error names the first required field missing.
    pub fn build(self) -> (r: Result<Segment<F>, HttpError>)
        ensures
            first_unset(self) is Some ==> r is Err && r->Err_0 is Validation
                && r->Err_0->Validation_0@ == first_unset(self)->Some_0,
            first_unset(self) is None ==> r is Ok && {
                let g = r->Ok_0;
                &&& self.id == Some(g.id)
                &&& self.start == Some(g.start)
                &&& self.end == Some(g.end)
                &&& self.temperature == Some(g.temperature)
                &&& self.text == Some(g.text)
                &&& self.tokens == Some(g.tokens)
                &&& (self.seek is Some ==> self.seek == Some(g.seek))
                &&& (self.seek is None ==> g.seek == 0)
                &&& (self.avg_logprob is Some ==> self.avg_logprob == Some(g.avg_logprob))
                &&& (self.avg_logprob is None ==> F::default.ensures((), g.avg_logprob))
                &&& (self.compression_ratio is Some ==> self.compression_ratio == Some(g.compression_ratio))
                &&& (self.compression_ratio is None ==> F::default.ensures((), g.compression_ratio))
                &&& (self.no_speech_prob is Some ==> self.no_speech_prob == Some(g.no_speech_prob))
                &&& (self.no_speech_prob is None ==> F::default.ensures((), g.no_speech_prob))
            },
    {
        let id = match self.id {
            Some(v) => v,
            None => {
                return Err(HttpError::Validation(String::from_str("Segment::id is not set")));
            },
        };
        let start = match self.start {
            Some(v) => v,
            None => {
                return Err(HttpError::Validation(String::from_str("Segment::start is not set")));
            },
        };
        let end = match self.end {
            Some(v) => v,
            None => {
                return Err(HttpError::Validation(String::from_str("Segment::end is not set")));
            },
        };
        let temperature = match self.temperature {
            Some(v) => v,
            None => {
                return Err(HttpError::Validation(String::from_str("Segment::temperature is not set")));
            },
        };
        let text = match self.text {
            Some(v) => v,
            None => {
                return Err(HttpError::Validation(String::from_str("Segment::text is not set")));
            },
        };
        let tokens = match self.tokens {
            Some(v) => v,
            None => {
                return Err(HttpError::Validation(String::from_str("Segment::tokens is not set")));
            },
        };
        let seek = match self.seek {
            Some(v) => v,
            None => 0,
        };
        let avg_logprob = match self.avg_logprob {
            Some(v) => v,
            None => F::default(),
        };
        let compression_ratio = match self.compression_ratio {
            Some(v) => v,
            None => F::default(),
        };
        let no_speech_prob = match self.no_speech_prob {
            Some(v) => v,
            None => F::default(),
        };
        Ok(Segment {
            id,
            start,
            end,
            seek,
            temperature,
            text,
            tokens,
            avg_logprob,
            compression_ratio,
            no_speech_prob,
        })
    }
}

/// A transcription answer: the text.
#[derive(Clone, Debug)]
pub struct Transcription {
    pub text: String,
}

impl Transcription {
    pub fn new(text: String) -> (r: Self)
        ensures
            r.text == text,
    {
        Transcription { text }
    }
}

/// A detailed transcription answer: the text, the audio's duration and
/// language, and the timed segments.
#[derive(Clone, Debug)]
pub struct VerboseTranscription<F> {
    pub text: String,
    pub duration: F,
    pub language: String,
    pub segments: Vec<Segment<F>>,
}

impl<F> VerboseTranscription<F> {
    pub fn new(text: String, duration: F, language: String, segments: Vec<Segment<F>>) -> (r: Self)
        ensures
            r.text == text,
            r.duration == duration,
            r.language == language,
            r.segments == segments,
    {
        VerboseTranscription { text, duration, language, segments }
    }
}

/// A transcription answer in the shape the request asked for.
#[derive(Clone, Debug)]
pub enum TranscriptionResponse<F> {
    Json(Transcription),
    Text(String),
    VerboseJson(VerboseTranscription<F>),
}

impl<F> TranscriptionResponse<F> {
    /// The format this answer is written in.
    pub fn format(&self) -> (r: ResponseFormat)
        ensures
            self is Json ==> r == ResponseFormat::Json,
            self is Text ==> r == ResponseFormat::Text,
            self is VerboseJson ==> r == ResponseFormat::VerboseJson,
    {
        match self {
            TranscriptionResponse::Json(_) => ResponseFormat::Json,
            TranscriptionResponse::Text(_) => ResponseFormat::Text,
            TranscriptionResponse::VerboseJson(_) => ResponseFormat::VerboseJson,
        }
    }
}

} // verus!
