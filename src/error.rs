use vstd::prelude::*;
use std::ops::Deref;

verus! {

/// A setting read from the process environment was missing or malformed.
#[derive(Clone, Debug, PartialEq)]
pub enum EnvironmentError {
    /// The named variable is required and was not set.
    MissingEnvVar(String),
    /// The named variable was set, and its value was refused for the given reason.
    InvalidEnvVar(String, String),
}

/// The backend could not take a request.
#[derive(Clone, Debug, PartialEq)]
pub enum HandlerError {
    /// The dispatch channel's consumer is gone: the request was not handed over.
    IpcFailed(String),
    /// The handler capability failed, for the given human-readable cause.
    Implementation(String),
}

/// Errors of the dispatch path, as delivered to the one awaiting caller.
#[derive(Clone, Debug, PartialEq)]
pub enum Error {
    Environment(EnvironmentError),
    Handler(HandlerError),
    Runtime(String),
}

/// The error classes a task router turns into a transport response.
#[derive(Clone, Debug, PartialEq)]
pub enum HttpError {
    /// Dispatch or handler failure, server side.
    Endpoint(Error),
    /// Reading or writing the connection failed; the message says how.
    Io(String),
    /// The multipart payload could not be read; the message says how.
    Multipart(String),
    /// The request was malformed; it never reached the dispatch channel.
    Validation(String),
    /// The backend closed the response sink without answering.
    NoResponse,
}

/// Errors of a transport front.
#[derive(Clone, Debug, PartialEq)]
pub enum TransportError {
    ValidationError(String),
}

/// HTTP status of a server-side failure.
pub const INTERNAL_SERVER_ERROR: u16 = 500;

/// HTTP status of a malformed request.
pub const BAD_REQUEST: u16 = 400;

impl HttpError {
    /// Whether the failure is the client's: a malformed request or payload.
    pub open spec fn is_client_error(&self) -> bool {
        self is Validation || self is Multipart
    }

    /// HTTP status code of this error: 400 for a malformed request, 500 otherwise.
    pub fn status_code(&self) -> (r: u16)
        ensures
            self.is_client_error() ==> r == BAD_REQUEST,
            !self.is_client_error() ==> r == INTERNAL_SERVER_ERROR,
    {
        match self {
            HttpError::Validation(_) | HttpError::Multipart(_) => BAD_REQUEST,
            HttpError::Endpoint(_) | HttpError::Io(_) | HttpError::NoResponse => INTERNAL_SERVER_ERROR,
        }
    }
}

impl From<Error> for HttpError {
    fn from(e: Error) -> (r: HttpError)
        ensures
            r == HttpError::Endpoint(e),
    {
        HttpError::Endpoint(e)
    }
}

impl vstd::std_specs::convert::FromSpecImpl<Error> for HttpError {
    open spec fn obeys_from_spec() -> bool {
        true
    }

    open spec fn from_spec(e: Error) -> HttpError {
        HttpError::Endpoint(e)
    }
}

impl From<HandlerError> for Error {
    fn from(e: HandlerError) -> (r: Error)
        ensures
            r == Error::Handler(e),
    {
        Error::Handler(e)
    }
}

impl vstd::std_specs::convert::FromSpecImpl<HandlerError> for Error {
    open spec fn obeys_from_spec() -> bool {
        true
    }

    open spec fn from_spec(e: HandlerError) -> Error {
        Error::Handler(e)
    }
}

impl From<EnvironmentError> for Error {
    fn from(e: EnvironmentError) -> (r: Error)
        ensures
            r == Error::Environment(e),
    {
        Error::Environment(e)
    }
}

impl vstd::std_specs::convert::FromSpecImpl<EnvironmentError> for Error {
    open spec fn obeys_from_spec() -> bool {
        true
    }

    open spec fn from_spec(e: EnvironmentError) -> Error {
        Error::Environment(e)
    }
}


impl EnvironmentError {
    pub open spec fn describe_spec(&self) -> Seq<char> {
        match self {
            EnvironmentError::MissingEnvVar(name) => "Required environment variable "@ + name@
                + " not found. Please define this variable "@ + name@
                + "=... and relaunch the application."@,
            EnvironmentError::InvalidEnvVar(name, why) => "Found environment variable "@ + name@
                + " but validation failed: "@ + why@
                + ". Please fix this variable and relaunch the application."@,
        }
    }

    /// What went wrong, for a person to read.
    pub fn describe(&self) -> (r: String)
        ensures
            r@ == self.describe_spec(),
    {
        match self {
            EnvironmentError::MissingEnvVar(name) => String::from_str("Required environment variable ")
                .concat(name.deref())
                .concat(" not found. Please define this variable ")
                .concat(name.deref())
                .concat("=... and relaunch the application."),
            EnvironmentError::InvalidEnvVar(name, why) => String::from_str("Found environment variable ")
                .concat(name.deref())
                .concat(" but validation failed: ")
                .concat(why.deref())
                .concat(". Please fix this variable and relaunch the application."),
        }
    }
}

impl HandlerError {
    pub open spec fn describe_spec(&self) -> Seq<char> {
        match self {
            HandlerError::IpcFailed(why) => "Failed to send message through IPC: "@ + why@,
            HandlerError::Implementation(why) => "Handler implementation is not correct: "@ + why@,
        }
    }

    /// What went wrong, for a person to read.
    pub fn describe(&self) -> (r: String)
        ensures
            r@ == self.describe_spec(),
    {
        match self {
            HandlerError::IpcFailed(why) => String::from_str("Failed to send message through IPC: ").concat(why.deref()),
            HandlerError::Implementation(why) => String::from_str("Handler implementation is not correct: ").concat(
                why.deref(),
            ),
        }
    }
}

impl Error {
    pub open spec fn describe_spec(&self) -> Seq<char> {
        match self {
            Error::Environment(e) => e.describe_spec(),
            Error::Handler(e) => e.describe_spec(),
            Error::Runtime(why) => why@,
        }
    }

    /// What went wrong, for a person to read: the inner error's account.
    pub fn describe(&self) -> (r: String)
        ensures
            r@ == self.describe_spec(),
    {
        match self {
            Error::Environment(e) => e.describe(),
            Error::Handler(e) => e.describe(),
            Error::Runtime(why) => why.clone(),
        }
    }
}

impl HttpError {
    pub open spec fn describe_spec(&self) -> Seq<char> {
        match self {
            HttpError::Endpoint(e) => "Endpoint error: "@ + e.describe_spec(),
            HttpError::Io(why) => "I/O Error occurred: "@ + why@,
            HttpError::Multipart(why) => "Malformed multipart/form-data payload: "@ + why@,
            HttpError::Validation(why) => "Validation failed: "@ + why@,
            HttpError::NoResponse => "No response was returned by the inference engine"@,
        }
    }

    /// What went wrong, for a log line.
    pub fn describe(&self) -> (r: String)
        ensures
            r@ == self.describe_spec(),
    {
        match self {
            HttpError::Endpoint(e) => {
                let inner = e.describe();
                String::from_str("Endpoint error: ").concat(inner.deref())
            },
            HttpError::Io(why) => String::from_str("I/O Error occurred: ").concat(why.deref()),
            HttpError::Multipart(why) => String::from_str("Malformed multipart/form-data payload: ").concat(why.deref()),
            HttpError::Validation(why) => String::from_str("Validation failed: ").concat(why.deref()),
            HttpError::NoResponse => String::from_str("No response was returned by the inference engine"),
        }
    }

    pub open spec fn body_spec(&self) -> Seq<char> {
        match self {
            HttpError::Endpoint(e) => e.describe_spec(),
            HttpError::Io(why) => why@,
            HttpError::Multipart(why) => why@,
            HttpError::Validation(why) => why@,
            HttpError::NoResponse => "No response returned by the inference engine"@,
        }
    }

    /// The transport answer to this error: its status code and the text of its body.
    pub fn to_status_and_body(&self) -> (r: (u16, String))
        ensures
            self.is_client_error() ==> r.0 == BAD_REQUEST,
            !self.is_client_error() ==> r.0 == INTERNAL_SERVER_ERROR,
            r.1@ == self.body_spec(),
    {
        let body = match self {
            HttpError::Endpoint(e) => e.describe(),
            HttpError::Io(why) => why.clone(),
            HttpError::Multipart(why) => why.clone(),
            HttpError::Validation(why) => why.clone(),
            HttpError::NoResponse => String::from_str("No response returned by the inference engine"),
        };
        (self.status_code(), body)
    }
}

} // verus!
