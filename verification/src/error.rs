//! Error values of request building, of asking a question and of client
//! construction, each with the text it shows to a reader.
use crate::span::Span;
use async_openai::error::OpenAIError;
use vstd::prelude::*;
use vstd::string::*;

verus! {

/// The error type of the chat-completion client crate, carried as an opaque cause.
#[verifier::external_type_specification]
#[verifier::external_body]
pub struct ExOpenAIError(OpenAIError);

/// The error type of the HTTP transport crate, carried as an opaque cause.
#[verifier::external_type_specification]
#[verifier::external_body]
pub struct ExTransportError(reqwest::Error);

/// Why a chat request could not be built. No network call has been made when
/// one of these is returned.
#[derive(Debug)]
pub enum BuildError {
    /// The message builder rejected a message; the payload is its explanation.
    InvalidMessage(String),
    /// The prompt could not be counted for the model; the payload says why.
    TokenCountUnavailable(String),
    /// The remaining budget does not fit the wire protocol's max-token field.
    TokenBudgetOutOfRange,
}

/// The three ways in which a build fails, without their explanations.
#[derive(Clone, Copy, Debug, PartialEq, Eq, Structural)]
pub enum BuildErrorKind {
    InvalidMessage,
    TokenCountUnavailable,
    TokenBudgetOutOfRange,
}

impl BuildError {
    /// Which of the three failures this is.
    pub open spec fn spec_kind(&self) -> BuildErrorKind {
        match *self {
            BuildError::InvalidMessage(_) => BuildErrorKind::InvalidMessage,
            BuildError::TokenCountUnavailable(_) => BuildErrorKind::TokenCountUnavailable,
            BuildError::TokenBudgetOutOfRange => BuildErrorKind::TokenBudgetOutOfRange,
        }
    }

    /// Which of the three failures this is.
    #[verifier::when_used_as_spec(spec_kind)]
    pub fn kind(&self) -> (r: BuildErrorKind)
        ensures
            r == self.spec_kind(),
    {
        match self {
            BuildError::InvalidMessage(_) => BuildErrorKind::InvalidMessage,
            BuildError::TokenCountUnavailable(_) => BuildErrorKind::TokenCountUnavailable,
            BuildError::TokenBudgetOutOfRange => BuildErrorKind::TokenBudgetOutOfRange,
        }
    }

    /// The explanation that a `ChatError` carries for this error.
    pub open spec fn spec_detail(self) -> Seq<char> {
        match self {
            BuildError::InvalidMessage(text) => text@,
            BuildError::TokenCountUnavailable(text) => text@,
            BuildError::TokenBudgetOutOfRange => "max tokens out of range"@,
        }
    }

    /// The explanation of this error as text.
    pub fn detail(&self) -> (r: String)
        ensures
            r@ == self.spec_detail(),
    {
        match self {
            BuildError::InvalidMessage(text) => text.clone(),
            BuildError::TokenCountUnavailable(text) => text.clone(),
            BuildError::TokenBudgetOutOfRange => "max tokens out of range".to_string(),
        }
    }
}

/// What went wrong while asking a question.
#[derive(Debug)]
pub enum ChatErrorKind {
    /// The remote call failed; the payload is the cause as the client crate reported it.
    Request(OpenAIError),
    /// The request could not be built; the payload explains why.
    BuildRequest(String),
}

/// A failed question, with the model it was meant for.
#[derive(Debug)]
pub struct ChatError {
    pub model: String,
    pub kind: ChatErrorKind,
}

impl ChatError {
    /// The text of this error, as a model of `message`.
    pub open spec fn spec_message(self) -> Seq<char> {
        match self.kind {
            ChatErrorKind::BuildRequest(detail) => "error building chat request "@ + detail@,
            ChatErrorKind::Request(_) => "error asking chat model "@ + self.model@,
        }
    }

    /// A build failure for `model`, carrying the build error's explanation.
    pub fn build_request(model: &str, err: &BuildError) -> (r: ChatError)
        ensures
            r.model@ == model@,
            r.kind matches ChatErrorKind::BuildRequest(detail) && detail@ == err.spec_detail(),
    {
        ChatError { model: model.to_string(), kind: ChatErrorKind::BuildRequest(err.detail()) }
    }

    /// A failed remote call for `model`, keeping `cause` as its source.
    pub fn request(model: &str, cause: OpenAIError) -> (r: ChatError)
        ensures
            r.model@ == model@,
            r.kind == ChatErrorKind::Request(cause),
    {
        ChatError { model: model.to_string(), kind: ChatErrorKind::Request(cause) }
    }

    /// The one-line description of this error.
    pub fn message(&self) -> (r: String)
        ensures
            r@ == self.spec_message(),
    {
        match &self.kind {
            ChatErrorKind::BuildRequest(detail) => {
                "error building chat request ".to_string().concat(detail.as_str())
            },
            ChatErrorKind::Request(_) => {
                "error asking chat model ".to_string().concat(self.model.as_str())
            },
        }
    }

    /// The underlying cause: the client crate's error for a failed remote
    /// call, nothing for a build failure.
    pub fn source(&self) -> (r: Option<&OpenAIError>)
        ensures
            match self.kind {
                ChatErrorKind::Request(cause) => r == Some(&cause),
                ChatErrorKind::BuildRequest(_) => r is None,
            },
    {
        match &self.kind {
            ChatErrorKind::Request(cause) => Some(cause),
            ChatErrorKind::BuildRequest(_) => None,
        }
    }
}

/// Why the API credential could not be had.
#[derive(Clone, Debug, PartialEq, Eq)]
pub enum CredentialError {
    /// The variable that holds the credential is not set.
    NotPresent,
    /// The variable holds what is not valid Unicode; the payload is its
    /// value with every invalid part replaced.
    NotUnicode(String),
}

/// Why a client could not be created.
#[derive(Debug)]
pub enum CreateClientErrorKind {
    /// The API credential could not be had; the payload says why.
    OpenAIKey(CredentialError),
    /// The HTTP transport could not be set up; the payload is its error.
    BuildClient(reqwest::Error),
}

/// What lies behind a failed client construction.
#[derive(Debug)]
pub enum CreateClientCause<'a> {
    Credential(&'a CredentialError),
    Transport(&'a reqwest::Error),
}

/// A failed client construction, with the timeout that was asked for.
#[derive(Debug)]
pub struct CreateClientError {
    pub timeout: Span,
    pub kind: CreateClientErrorKind,
}

/// How `std::time::Duration` prints a span of `secs` seconds and `nanos`
/// nanoseconds with `{:?}`.
pub uninterp spec fn duration_text(secs: u64, nanos: u32) -> Seq<char>;

/// Formats the `std::time::Duration` of `secs` seconds and `nanos`
/// nanoseconds with `{:?}`. Trusted: the result is the text that
/// `duration_text` names. With `nanos` under a second, `Duration::new`
/// carries nothing over and does not panic.
#[verifier::external_body]
fn format_duration(secs: u64, nanos: u32) -> (r: String)
    requires
        nanos < 1000000000,
    ensures
        r@ == duration_text(secs, nanos),
{
    format!("{:?}", std::time::Duration::new(secs, nanos))
}

impl CreateClientError {
    /// The text of this error, as a model of `message`.
    pub open spec fn spec_message(self) -> Seq<char> {
        "error creating openai client with timeout "@ + duration_text(
            self.timeout.spec_secs(),
            self.timeout.spec_subsec_nanos(),
        )
    }

    /// The error of a construction that could not have the credential.
    pub fn missing_credential(timeout: Span, cause: CredentialError) -> (r: CreateClientError)
        ensures
            r.timeout == timeout,
            r.kind == CreateClientErrorKind::OpenAIKey(cause),
    {
        CreateClientError { timeout, kind: CreateClientErrorKind::OpenAIKey(cause) }
    }

    /// The error of a construction whose transport could not be set up.
    pub fn transport(timeout: Span, cause: reqwest::Error) -> (r: CreateClientError)
        ensures
            r.timeout == timeout,
            r.kind == CreateClientErrorKind::BuildClient(cause),
    {
        CreateClientError { timeout, kind: CreateClientErrorKind::BuildClient(cause) }
    }

    /// The one-line description of this error.
    pub fn message(&self) -> (r: String)
        ensures
            r@ == self.spec_message(),
    {
        let span = format_duration(self.timeout.secs(), self.timeout.subsec_nanos());
        "error creating openai client with timeout ".to_string().concat(span.as_str())
    }

    /// The underlying cause: why the credential could not be had, or the
    /// transport's error where the transport could not be set up.
    pub fn source(&self) -> (r: Option<CreateClientCause<'_>>)
        ensures
            match self.kind {
                CreateClientErrorKind::OpenAIKey(cause) => r == Some(
                    CreateClientCause::Credential(&cause),
                ),
                CreateClientErrorKind::BuildClient(cause) => r == Some(
                    CreateClientCause::Transport(&cause),
                ),
            },
    {
        match &self.kind {
            CreateClientErrorKind::OpenAIKey(cause) => Some(CreateClientCause::Credential(cause)),
            CreateClientErrorKind::BuildClient(cause) => Some(CreateClientCause::Transport(cause)),
        }
    }
}

} // verus!
