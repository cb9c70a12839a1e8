//! The client: its construction from a credential and a timeout, and the
//! course of one question from the built request to the answer or the error.
use crate::error::BuildErrorKind;
use crate::error::ChatError;
use crate::error::ChatErrorKind;
use crate::error::CreateClientError;
use crate::error::CreateClientErrorKind;
use crate::error::CredentialError;
use crate::request::build_request;
use crate::request::build_outcome;
use crate::request::countable;
use crate::request::ChatRequest;
use crate::retry::BackoffPolicy;
use crate::session::Session;
use crate::span::Span;
use vstd::prelude::*;
use vstd::string::*;

verus! {

/// The HTTP client of the transport crate, held as an opaque handle.
#[verifier::external_type_specification]
#[verifier::external_body]
pub struct ExTransport(reqwest::Client);

/// What a client is configured with, once and for its lifetime.
#[derive(Debug)]
pub struct ClientConfig {
    pub api_key: String,
    pub request_timeout: Span,
    pub backoff: BackoffPolicy,
}

impl ClientConfig {
    /// The configuration for a credential and a timeout: the timeout bounds
    /// each request and, through the standard backoff policy, the retries.
    /// Fails where the credential could not be had.
    pub fn new(credential: Result<String, CredentialError>, timeout: Span) -> (r: Result<
        ClientConfig,
        CreateClientError,
    >)
        ensures
            match credential {
                Ok(key) => r == Ok::<ClientConfig, CreateClientError>(
                    ClientConfig {
                        api_key: key,
                        request_timeout: timeout,
                        backoff: BackoffPolicy::spec_standard(timeout.total_nanos() as u128),
                    },
                ),
                Err(cause) => r == Err::<ClientConfig, CreateClientError>(
                    CreateClientError { timeout, kind: CreateClientErrorKind::OpenAIKey(cause) },
                ),
            },
    {
        match credential {
            Ok(key) => Ok(
                ClientConfig {
                    api_key: key,
                    request_timeout: timeout,
                    backoff: BackoffPolicy::standard(timeout.as_nanos()),
                },
            ),
            Err(cause) => Err(CreateClientError::missing_credential(timeout, cause)),
        }
    }
}

/// Calls `reqwest::ClientBuilder::build` on a builder whose request timeout
/// is `secs` seconds and `nanos` nanoseconds. Nothing is claimed of the
/// outcome, which depends on the machine's TLS setup. With `nanos` under a
/// second, `Duration::new` carries nothing over and does not panic.
#[verifier::external_body]
fn build_transport(secs: u64, nanos: u32) -> (r: Result<reqwest::Client, reqwest::Error>)
    requires
        nanos < 1000000000,
{
    reqwest::ClientBuilder::new().timeout(std::time::Duration::new(secs, nanos)).build()
}

/// A client whose requests and retries are bounded by one timeout.
pub struct TimeoutClient {
    config: ClientConfig,
    transport: reqwest::Client,
}

impl TimeoutClient {
    /// The configuration that this client was created with.
    pub closed spec fn spec_config(&self) -> ClientConfig {
        self.config
    }

    /// The transport handle that this client owns.
    pub closed spec fn spec_transport(&self) -> reqwest::Client {
        self.transport
    }

    /// The configuration that this client was created with.
    pub fn config(&self) -> (r: &ClientConfig)
        ensures
            *r == self.spec_config(),
    {
        &self.config
    }

    /// The transport handle that this client owns.
    pub fn transport(&self) -> (r: &reqwest::Client)
        ensures
            *r == self.spec_transport(),
    {
        &self.transport
    }

    /// The client for a configuration and for what setting up the transport
    /// came to: the client that owns both, or the transport's error.
    pub fn assemble(config: ClientConfig, transport: Result<reqwest::Client, reqwest::Error>) -> (r:
        Result<TimeoutClient, CreateClientError>)
        ensures
            match transport {
                Ok(handle) => r matches Ok(client) && client.spec_config() == config
                    && client.spec_transport() == handle,
                Err(cause) => r == Err::<TimeoutClient, CreateClientError>(
                    CreateClientError {
                        timeout: config.request_timeout,
                        kind: CreateClientErrorKind::BuildClient(cause),
                    },
                ),
            },
    {
        match transport {
            Ok(handle) => Ok(TimeoutClient { config, transport: handle }),
            Err(cause) => Err(CreateClientError::transport(config.request_timeout, cause)),
        }
    }

    /// Creates the client: the configuration first, which needs the
    /// credential, then the transport, and the client out of both.
    pub fn new(timeout: Span, credential: Result<String, CredentialError>) -> (r: Result<
        TimeoutClient,
        CreateClientError,
    >)
        ensures
            match credential {
                Err(cause) => r == Err::<TimeoutClient, CreateClientError>(
                    CreateClientError { timeout, kind: CreateClientErrorKind::OpenAIKey(cause) },
                ),
                Ok(key) => match r {
                    Ok(client) => client.spec_config() == (ClientConfig {
                        api_key: key,
                        request_timeout: timeout,
                        backoff: BackoffPolicy::spec_standard(timeout.total_nanos() as u128),
                    }),
                    Err(e) => e.timeout == timeout && e.kind is BuildClient,
                },
            },
    {
        let config = match ClientConfig::new(credential, timeout) {
            Ok(config) => config,
            Err(e) => {
                return Err(e);
            },
        };
        let transport = build_transport(timeout.secs(), timeout.subsec_nanos());
        TimeoutClient::assemble(config, transport)
    }
}

/// Creates a client for a timeout and for what looking up the API credential
/// came to.
///
/// A failed lookup is an error, and the transport is not set up then.
/// Otherwise the transport is set up with the timeout as its request timeout;
/// where that fails, its error is returned. The client's retries follow the
/// standard backoff policy, which stops retrying once the timeout has passed.
pub fn live(timeout: Span, credential: Result<String, CredentialError>) -> (r: Result<
    TimeoutClient,
    CreateClientError,
>)
    ensures
        match credential {
            Err(cause) => r == Err::<TimeoutClient, CreateClientError>(
                CreateClientError { timeout, kind: CreateClientErrorKind::OpenAIKey(cause) },
            ),
            Ok(key) => match r {
                Ok(client) => client.spec_config() == (ClientConfig {
                    api_key: key,
                    request_timeout: timeout,
                    backoff: BackoffPolicy::spec_standard(timeout.total_nanos() as u128),
                }),
                Err(e) => e.timeout == timeout && e.kind is BuildClient,
            },
        },
{
    TimeoutClient::new(timeout, credential)
}

impl TimeoutClient {
    /// Begins a question: builds its request and opens its session. Nothing
    /// has been sent when this returns, and nothing is to be sent where it
    /// fails: the error then names the model and explains the build failure.
    pub fn begin<T>(&self, system: &str, question: &str, model: &str, temperature: T) -> (r: Result<
        (ChatRequest<T>, Session),
        ChatError,
    >)
        ensures
            match r {
                Ok((request, session)) => {
                    &&& build_outcome(system@, question@, model@) == Ok::<nat, BuildErrorKind>(
                        request.max_response_tokens as nat,
                    )
                    &&& request.system_prompt@ == system@
                    &&& request.user_prompt@ == question@
                    &&& request.model_id@ == model@
                    &&& request.temperature == temperature
                    &&& session.model() == model@
                    &&& session.policy() == self.spec_config().backoff
                    &&& session.retries() == 0
                },
                Err(e) => {
                    &&& build_outcome(system@, question@, model@) matches Err(failure)
                    &&& e.model@ == model@
                    &&& e.kind matches ChatErrorKind::BuildRequest(detail)
                    &&& failure == BuildErrorKind::TokenBudgetOutOfRange ==> detail@
                        == "max tokens out of range"@
                    &&& failure == BuildErrorKind::TokenCountUnavailable && !countable(
                        system@,
                        question@,
                    ) ==> detail@ == "prompt too long to count"@
                },
            },
    {
        match build_request(system, question, model, temperature) {
            Ok(request) => Ok((request, Session::start(model, self.config.backoff))),
            Err(e) => Err(ChatError::build_request(model, &e)),
        }
    }
}

} // verus!
