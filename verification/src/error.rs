//! Errors of the service and of the library, and the classification of the
//! service's error messages.

use crate::address::parse_error_text;
use crate::address::parse_error_words;
use crate::types::ErrorMessage;
use vstd::prelude::*;
use vstd::std_specs::convert::FromSpecImpl;
use vstd::string::StringExecFns;

verus! {

/// An error that the service reported.
///
/// The variant stands for the message's `error`, its short description. The
/// string inside is the message's `errorMessage`, the longer description that
/// can be shown to the user.
#[derive(Clone, Debug, PartialEq, Eq)]
pub enum ApiError {
    MethodNotAllowed(String),
    NotFound(String),
    ForbiddenOperationException(String),
    IllegalArgumentException(String),
    UnsupportedMediaType(String),
    /// An error that this library has no name for: both descriptions as the
    /// service sent them.
    Unknown { error: String, message: String },
}

/// An [`ApiError`] with its strings as sequences of characters.
pub enum ApiErrorView {
    MethodNotAllowed(Seq<char>),
    NotFound(Seq<char>),
    ForbiddenOperationException(Seq<char>),
    IllegalArgumentException(Seq<char>),
    UnsupportedMediaType(Seq<char>),
    Unknown { error: Seq<char>, message: Seq<char> },
}

impl View for ApiError {
    type V = ApiErrorView;

    open spec fn view(&self) -> ApiErrorView {
        match self {
            ApiError::MethodNotAllowed(m) => ApiErrorView::MethodNotAllowed(m@),
            ApiError::NotFound(m) => ApiErrorView::NotFound(m@),
            ApiError::ForbiddenOperationException(m) => ApiErrorView::ForbiddenOperationException(
                m@,
            ),
            ApiError::IllegalArgumentException(m) => ApiErrorView::IllegalArgumentException(m@),
            ApiError::UnsupportedMediaType(m) => ApiErrorView::UnsupportedMediaType(m@),
            ApiError::Unknown { error, message } => ApiErrorView::Unknown {
                error: error@,
                message: message@,
            },
        }
    }
}

/// Where an exchange failed below the protocol.
#[derive(Clone, Copy, Debug, PartialEq, Eq, Structural)]
pub enum TransportKind {
    /// No connection to the server could be made.
    Connect,
    /// The server did not answer in time.
    Timeout,
    /// An answer came, and its body was not what it had to be.
    Decode,
    /// Anything else that the HTTP client reported.
    Other,
}

/// A failure of the HTTP client, as plain values: what kind of failure it
/// was, and the client's own words for it.
#[derive(Clone, Debug, PartialEq, Eq)]
pub struct TransportError {
    pub kind: TransportKind,
    pub message: String,
}

/// A [`TransportError`] with its message as a sequence of characters.
pub struct TransportErrorView {
    pub kind: TransportKind,
    pub message: Seq<char>,
}

impl View for TransportError {
    type V = TransportErrorView;

    open spec fn view(&self) -> TransportErrorView {
        TransportErrorView { kind: self.kind, message: self.message@ }
    }
}

/// Common errors.
#[derive(Debug, PartialEq, Eq)]
pub enum Error {
    /// The HTTP client failed.
    Reqwest(TransportError),
    /// A base URL or an endpoint is no URL.
    UrlParseError(url::ParseError),
    /// A request lacks a field that it must have.
    MissingField(&'static str),
    /// The service reported an error.
    API(ApiError),
}

/// An [`Error`] with its strings as sequences of characters.
pub enum ErrorView {
    Reqwest(TransportErrorView),
    UrlParseError(url::ParseError),
    MissingField(Seq<char>),
    API(ApiErrorView),
}

impl View for Error {
    type V = ErrorView;

    open spec fn view(&self) -> ErrorView {
        match self {
            Error::Reqwest(e) => ErrorView::Reqwest(e@),
            Error::UrlParseError(e) => ErrorView::UrlParseError(*e),
            Error::MissingField(field) => ErrorView::MissingField(field@),
            Error::API(e) => ErrorView::API(e@),
        }
    }
}

/// The category of a message of the service, by its short description
/// `error`, compared letter for letter. A description that is none of the
/// five known ones is kept as it is, beside the message.
pub open spec fn classify(error: Seq<char>, message: Seq<char>) -> ApiErrorView {
    if error == "ForbiddenOperationException"@ {
        ApiErrorView::ForbiddenOperationException(message)
    } else if error == "IllegalArgumentException"@ {
        ApiErrorView::IllegalArgumentException(message)
    } else if error == "Method Not Allowed"@ {
        ApiErrorView::MethodNotAllowed(message)
    } else if error == "Not Found"@ {
        ApiErrorView::NotFound(message)
    } else if error == "Unsupported Media Type"@ {
        ApiErrorView::UnsupportedMediaType(message)
    } else {
        ApiErrorView::Unknown { error, message }
    }
}

/// Whether `error` is one of the five short descriptions that have a
/// category of their own.
pub open spec fn is_known_error(error: Seq<char>) -> bool {
    ||| error == "ForbiddenOperationException"@
    ||| error == "IllegalArgumentException"@
    ||| error == "Method Not Allowed"@
    ||| error == "Not Found"@
    ||| error == "Unsupported Media Type"@
}

/// The message that an error of the service carries.
pub open spec fn message_of(e: ApiErrorView) -> Seq<char> {
    match e {
        ApiErrorView::MethodNotAllowed(m) => m,
        ApiErrorView::NotFound(m) => m,
        ApiErrorView::ForbiddenOperationException(m) => m,
        ApiErrorView::IllegalArgumentException(m) => m,
        ApiErrorView::UnsupportedMediaType(m) => m,
        ApiErrorView::Unknown { error, message } => message,
    }
}

/// What is made of the body of an answer that reports an error: the
/// category of the message where the body could be read, the client's failure
/// where it could not.
pub open spec fn error_of_response(
    body: Result<(Seq<char>, Seq<char>), TransportErrorView>,
) -> ErrorView {
    match body {
        Ok((error, message)) => ErrorView::API(classify(error, message)),
        Err(e) => ErrorView::Reqwest(e),
    }
}

/// The text of an error of the service.
pub open spec fn api_error_text(e: ApiErrorView) -> Seq<char> {
    match e {
        ApiErrorView::MethodNotAllowed(m) => "API error: MethodNotAllowed ("@ + m + ")"@,
        ApiErrorView::NotFound(m) => "API error: NotFound ("@ + m + ")"@,
        ApiErrorView::ForbiddenOperationException(m) => "API error: ForbiddenOperationException ("@
            + m + ")"@,
        ApiErrorView::IllegalArgumentException(m) => "API error: IllegalArgumentException ("@ + m
            + ")"@,
        ApiErrorView::UnsupportedMediaType(m) => "API error: UnsupportedMediaType ("@ + m + ")"@,
        ApiErrorView::Unknown { error, message } => "API error: "@ + error + " ("@ + message
            + ")"@,
    }
}

/// The text of an error. For a URL that did not parse it ends in the
/// parser's own words for the reason.
pub open spec fn error_text(e: ErrorView) -> Seq<char> {
    match e {
        ErrorView::Reqwest(t) => "Reqwest error: "@ + t.message,
        ErrorView::UrlParseError(reason) => "URL parse error: "@ + parse_error_words(reason),
        ErrorView::MissingField(field) => "Missing field: "@ + field,
        ErrorView::API(a) => api_error_text(a),
    }
}

/// Whether `text` and `literal` hold the same characters.
fn same_text(text: &String, literal: &str) -> (same: bool)
    ensures
        same == (text@ == literal@),
{
    let other = String::from_str(literal);
    *text == other
}

/// `head`, then `tail`.
fn joined(head: &str, tail: &str) -> (text: String)
    ensures
        text@ == head@ + tail@,
{
    let mut text = String::from_str(head);
    text.append(tail);
    text
}

/// `head`, then `middle`, then `tail`.
fn framed(head: &str, middle: &str, tail: &str) -> (text: String)
    ensures
        text@ == head@ + middle@ + tail@,
{
    let mut text = String::from_str(head);
    text.append(middle);
    text.append(tail);
    text
}

/// The text of the error for a URL that did not parse, where `words` are the
/// parser's words for the reason.
pub fn url_error_text(words: &str) -> (text: String)
    ensures
        text@ == "URL parse error: "@ + words@,
{
    joined("URL parse error: ", words)
}

impl ApiError {
    /// Classifies a message of the service.
    pub fn from_message(msg: ErrorMessage) -> (res: ApiError)
        ensures
            res@ == classify(msg.error@, msg.error_message@),
    {
        if same_text(&msg.error, "ForbiddenOperationException") {
            ApiError::ForbiddenOperationException(msg.error_message)
        } else if same_text(&msg.error, "IllegalArgumentException") {
            ApiError::IllegalArgumentException(msg.error_message)
        } else if same_text(&msg.error, "Method Not Allowed") {
            ApiError::MethodNotAllowed(msg.error_message)
        } else if same_text(&msg.error, "Not Found") {
            ApiError::NotFound(msg.error_message)
        } else if same_text(&msg.error, "Unsupported Media Type") {
            ApiError::UnsupportedMediaType(msg.error_message)
        } else {
            ApiError::Unknown { error: msg.error, message: msg.error_message }
        }
    }

    /// The longer description that the service sent.
    pub fn message(&self) -> (m: &str)
        ensures
            m@ == message_of(self@),
    {
        match self {
            ApiError::MethodNotAllowed(m) => m.as_str(),
            ApiError::NotFound(m) => m.as_str(),
            ApiError::ForbiddenOperationException(m) => m.as_str(),
            ApiError::IllegalArgumentException(m) => m.as_str(),
            ApiError::UnsupportedMediaType(m) => m.as_str(),
            ApiError::Unknown { error, message } => message.as_str(),
        }
    }

    /// The text of the error: its category, or for an unknown error the
    /// service's short description, and the message in brackets.
    pub fn to_string(&self) -> (text: String)
        ensures
            text@ == api_error_text(self@),
    {
        match self {
            ApiError::MethodNotAllowed(m) => framed(
                "API error: MethodNotAllowed (",
                m.as_str(),
                ")",
            ),
            ApiError::NotFound(m) => framed("API error: NotFound (", m.as_str(), ")"),
            ApiError::ForbiddenOperationException(m) => framed(
                "API error: ForbiddenOperationException (",
                m.as_str(),
                ")",
            ),
            ApiError::IllegalArgumentException(m) => framed(
                "API error: IllegalArgumentException (",
                m.as_str(),
                ")",
            ),
            ApiError::UnsupportedMediaType(m) => framed(
                "API error: UnsupportedMediaType (",
                m.as_str(),
                ")",
            ),
            ApiError::Unknown { error, message } => {
                let mut text = framed("API error: ", error.as_str(), " (");
                text.append(message.as_str());
                text.append(")");
                text
            },
        }
    }
}

impl From<TransportError> for Error {
    fn from(error: TransportError) -> (res: Error) {
        Error::Reqwest(error)
    }
}

impl FromSpecImpl<TransportError> for Error {
    open spec fn obeys_from_spec() -> bool {
        true
    }

    open spec fn from_spec(error: TransportError) -> Error {
        Error::Reqwest(error)
    }
}

impl From<url::ParseError> for Error {
    fn from(error: url::ParseError) -> (res: Error) {
        Error::UrlParseError(error)
    }
}

impl FromSpecImpl<url::ParseError> for Error {
    open spec fn obeys_from_spec() -> bool {
        true
    }

    open spec fn from_spec(error: url::ParseError) -> Error {
        Error::UrlParseError(error)
    }
}

impl Error {
    /// The error for an answer whose status is not the one that the request
    /// succeeds with. `body` is what came of reading the answer's body as an
    /// error message.
    ///
    /// A body that could not be read gives the client's failure, never an
    /// error of the service.
    pub fn from_response(body: Result<ErrorMessage, TransportError>) -> (res: Error)
        ensures
            res@ == error_of_response(
                match body {
                    Ok(msg) => Ok((msg.error@, msg.error_message@)),
                    Err(e) => Err(e@),
                },
            ),
    {
        match body {
            Ok(msg) => Error::API(ApiError::from_message(msg)),
            Err(e) => Error::Reqwest(e),
        }
    }

    /// The text of the error: what kind of error it is, a colon, and the
    /// details.
    pub fn to_string(&self) -> (text: String)
        ensures
            text@ == error_text(self@),
    {
        match self {
            Error::Reqwest(e) => joined("Reqwest error: ", e.message.as_str()),
            Error::UrlParseError(e) => {
                let words = parse_error_text(e);
                url_error_text(words.as_str())
            },
            Error::MissingField(field) => joined("Missing field: ", field),
            Error::API(e) => e.to_string(),
        }
    }
}

/// Whatever the category, the error carries the message that the service
/// sent.
pub proof fn lemma_classify_keeps_message(error: Seq<char>, message: Seq<char>)
    ensures
        message_of(classify(error, message)) == message,
{
}

/// The unknown error is the catch-all: it is what a short description
/// outside the table becomes, with both strings as they came, and nothing
/// else becomes it.
pub proof fn lemma_unknown_is_the_catch_all(error: Seq<char>, message: Seq<char>)
    ensures
        classify(error, message) is Unknown <==> !is_known_error(error),
        !is_known_error(error) ==> classify(error, message) == (ApiErrorView::Unknown {
            error,
            message,
        }),
{
}

/// The table of the known short descriptions, row by row.
pub proof fn lemma_known_errors(message: Seq<char>)
    ensures
        classify("ForbiddenOperationException"@, message)
            == ApiErrorView::ForbiddenOperationException(message),
        classify("IllegalArgumentException"@, message) == ApiErrorView::IllegalArgumentException(
            message,
        ),
        classify("Method Not Allowed"@, message) == ApiErrorView::MethodNotAllowed(message),
        classify("Not Found"@, message) == ApiErrorView::NotFound(message),
        classify("Unsupported Media Type"@, message) == ApiErrorView::UnsupportedMediaType(
            message,
        ),
{
    reveal_strlit("ForbiddenOperationException");
    reveal_strlit("IllegalArgumentException");
    reveal_strlit("Method Not Allowed");
    reveal_strlit("Not Found");
    reveal_strlit("Unsupported Media Type");
    assert("ForbiddenOperationException"@.len() == 27);
    assert("IllegalArgumentException"@.len() == 24);
    assert("Method Not Allowed"@.len() == 18);
    assert("Not Found"@.len() == 9);
    assert("Unsupported Media Type"@.len() == 22);
}

} // verus!
