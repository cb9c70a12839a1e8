use async_openai::error::OpenAIError;
use chat_client::client::live;
use chat_client::client::ClientConfig;
use chat_client::client::TimeoutClient;
use chat_client::error::BuildError;
use chat_client::error::ChatError;
use chat_client::error::ChatErrorKind;
use chat_client::error::CreateClientCause;
use chat_client::error::CreateClientError;
use chat_client::error::CreateClientErrorKind;
use chat_client::error::CredentialError;
use chat_client::response::ChatResponse;
use chat_client::retry::BackoffPolicy;
use chat_client::session::is_rate_limited;
use chat_client::session::Outcome;
use chat_client::session::Session;
use chat_client::session::Step;
use chat_client::span::Span;

const SECOND: u64 = 1_000_000_000;

fn seconds(secs: u64) -> u128 {
    u128::from(secs) * u128::from(SECOND)
}

fn response(choices: &[&str]) -> ChatResponse {
    ChatResponse { choices: choices.iter().map(|text| text.to_string()).collect() }
}

fn answered(choices: &[&str]) -> Outcome {
    Outcome::Answered(response(choices))
}

fn rate_limit() -> OpenAIError {
    OpenAIError::StreamError("rate limit reached".to_string())
}

fn retry_of(step: Step) -> (u64, Session) {
    match step {
        Step::Retry { delay_ns, next } => (delay_ns, next),
        Step::Finished(_) => panic!("the question ended where a retry was due"),
    }
}

fn end_of(step: Step) -> Result<String, ChatError> {
    match step {
        Step::Finished(result) => result,
        Step::Retry { .. } => panic!("a retry was asked for where the question was over"),
    }
}

fn transport_error() -> reqwest::Error {
    reqwest::Client::new().get("not a url").build().unwrap_err()
}

fn key(text: &str) -> Result<String, CredentialError> {
    Ok(text.to_string())
}

#[test]
fn span_keeps_seconds_and_nanoseconds() {
    let span = Span::new(3, 500).unwrap();
    assert_eq!(span.secs(), 3);
    assert_eq!(span.subsec_nanos(), 500);
    assert_eq!(span.as_nanos(), 3_000_000_500);
    assert_eq!(Span::new(u64::MAX, 999_999_999).unwrap().as_nanos(), 18_446_744_073_709_551_615_999_999_999);
    assert_eq!(Span::new(0, 1_000_000_000), None);
    assert_eq!(Span::new(7, u32::MAX), None);
    assert_eq!(Span::from_secs(9), Span::new(9, 0).unwrap());
    assert_eq!(Span::from_millis(1500), Span::new(1, 500_000_000).unwrap());
    assert_eq!(Span::from_millis(u64::MAX).as_nanos(), u128::from(u64::MAX) * 1_000_000);
}

#[test]
fn missing_credential_is_an_error() {
    let err = match live(Span::from_secs(30), Err(CredentialError::NotPresent)) {
        Err(err) => err,
        Ok(_) => panic!("a client was created without a credential"),
    };
    assert_eq!(err.timeout, Span::from_secs(30));
    assert!(matches!(err.kind, CreateClientErrorKind::OpenAIKey(CredentialError::NotPresent)));
    assert!(matches!(
        err.source(),
        Some(CreateClientCause::Credential(CredentialError::NotPresent))
    ));
    assert_eq!(err.message(), "error creating openai client with timeout 30s");
}

#[test]
fn credential_that_is_not_unicode_is_an_error() {
    let cause = CredentialError::NotUnicode("sk-\u{fffd}".to_string());
    let err = match live(Span::from_secs(5), Err(cause.clone())) {
        Err(err) => err,
        Ok(_) => panic!("a client was created without a credential"),
    };
    match err.source() {
        Some(CreateClientCause::Credential(found)) => assert_eq!(*found, cause),
        _ => panic!("the cause of the failure was not kept"),
    }
}

#[test]
fn config_without_credential_is_an_error() {
    let timeout = Span::from_millis(1500);
    let err = ClientConfig::new(Err(CredentialError::NotPresent), timeout).unwrap_err();
    assert_eq!(err.timeout, timeout);
    assert!(matches!(err.kind, CreateClientErrorKind::OpenAIKey(_)));
    assert_eq!(err.message(), "error creating openai client with timeout 1.5s");
}

#[test]
fn config_binds_the_retries_to_the_timeout() {
    let timeout = Span::new(45, 1).unwrap();
    let config = ClientConfig::new(key("SECRET-REDACTED"), timeout).unwrap();
    assert_eq!(config.api_key, "SECRET-REDACTED");
    assert_eq!(config.request_timeout, timeout);
    assert_eq!(config.backoff, BackoffPolicy::standard(45_000_000_001));
    assert_eq!(config.backoff.initial_interval_ns, 4 * SECOND);
    assert_eq!(config.backoff.multiplier_percent, 200);
    assert_eq!(config.backoff.max_interval_ns, 20 * SECOND);
    assert_eq!(config.backoff.max_elapsed_ns, 45_000_000_001);
}

#[test]
fn live_creates_a_client_for_a_credential() {
    let client = match live(Span::from_secs(12), key("SECRET-REDACTED")) {
        Ok(client) => client,
        Err(err) => panic!("{}", err.message()),
    };
    assert_eq!(client.config().api_key, "SECRET-REDACTED");
    assert_eq!(client.config().request_timeout, Span::from_secs(12));
    assert_eq!(client.config().backoff, BackoffPolicy::standard(seconds(12)));
    let _ = client.transport().get("http://localhost/").build().unwrap();
}

#[test]
fn live_takes_the_longest_timeout() {
    let timeout = Span::new(u64::MAX, 999_999_999).unwrap();
    let client = live(timeout, key("k")).ok().unwrap();
    assert_eq!(client.config().backoff.max_elapsed_ns, timeout.as_nanos());
}

#[test]
fn assemble_reports_a_transport_that_failed() {
    let config = ClientConfig::new(key("k"), Span::from_secs(7)).unwrap();
    let err = match TimeoutClient::assemble(config, Err(transport_error())) {
        Err(err) => err,
        Ok(_) => panic!("a client was created without a transport"),
    };
    assert_eq!(err.timeout, Span::from_secs(7));
    assert!(matches!(err.kind, CreateClientErrorKind::BuildClient(_)));
    match err.source() {
        Some(CreateClientCause::Transport(cause)) => assert!(cause.is_builder()),
        _ => panic!("the transport's error was not kept"),
    }
    assert_eq!(err.message(), "error creating openai client with timeout 7s");
}

#[test]
fn create_errors_are_built_as_named() {
    let err = CreateClientError::missing_credential(
        Span::from_millis(250),
        CredentialError::NotPresent,
    );
    assert_eq!(err.timeout, Span::from_millis(250));
    assert!(matches!(err.kind, CreateClientErrorKind::OpenAIKey(CredentialError::NotPresent)));
    assert_eq!(err.message(), "error creating openai client with timeout 250ms");
    let err = CreateClientError::transport(Span::from_secs(0), transport_error());
    assert!(matches!(err.source(), Some(CreateClientCause::Transport(_))));
    assert_eq!(err.message(), "error creating openai client with timeout 0ns");
    let err = CreateClientError::transport(Span::new(1, 1).unwrap(), transport_error());
    assert_eq!(err.message(), "error creating openai client with timeout 1.000000001s");
}

#[test]
fn no_choices_give_an_empty_answer() {
    assert_eq!(response(&[]).answer(), "");
    let session = Session::start("gpt-4", BackoffPolicy::standard(seconds(1)));
    assert_eq!(end_of(session.advance(answered(&[]), 10)).unwrap(), "");
}

#[test]
fn choices_are_joined_in_order_without_separator() {
    assert_eq!(response(&["Hello", "world"]).answer(), "Helloworld");
    assert_eq!(response(&["b", "", "a ", "c"]).answer(), "ba c");
    let session = Session::start("gpt-4", BackoffPolicy::standard(seconds(1)));
    assert_eq!(end_of(session.advance(answered(&["one", "two"]), 10)).unwrap(), "onetwo");
    assert_eq!(response(&["two ", "one"]).answer(), "two one");
}

#[test]
fn two_rate_limits_then_an_answer() {
    let session = Session::start("gpt-4", BackoffPolicy::standard(seconds(60)));
    assert_eq!(session.next_delay_ns(), 4 * SECOND);
    let (first, session) = retry_of(session.advance(Outcome::RateLimited(rate_limit()), 120));
    assert_eq!(first, 4 * SECOND);
    assert_eq!(session.next_delay_ns(), 8 * SECOND);
    let (second, session) =
        retry_of(session.advance(Outcome::RateLimited(rate_limit()), 4_300_000_000));
    assert_eq!(second, 8 * SECOND);
    let answer = end_of(session.advance(answered(&["done"]), 12_500_000_000));
    assert_eq!(answer.unwrap(), "done");
}

#[test]
fn waits_grow_to_the_ceiling() {
    let mut session = Session::start("gpt-4", BackoffPolicy::standard(seconds(600)));
    let mut waits = Vec::new();
    for _ in 0..6 {
        let (wait, next) = retry_of(session.advance(Outcome::RateLimited(rate_limit()), 0));
        waits.push(wait / SECOND);
        session = next;
    }
    assert_eq!(waits, vec![4, 8, 16, 20, 20, 20]);
}

#[test]
fn rate_limits_past_the_timeout_end_with_the_last_error() {
    let mut session = Session::start("gpt-3.5-turbo", BackoffPolicy::standard(seconds(10)));
    let mut elapsed: u128 = 0;
    let mut waits = Vec::new();
    let err = loop {
        let cause = OpenAIError::StreamError(format!("rate limit at {elapsed}"));
        match session.advance(Outcome::RateLimited(cause), elapsed) {
            Step::Retry { delay_ns, next } => {
                assert!(elapsed <= seconds(10));
                waits.push(delay_ns);
                elapsed += u128::from(delay_ns);
                session = next;
            }
            Step::Finished(result) => break result.unwrap_err(),
        }
    };
    assert_eq!(waits, vec![4 * SECOND, 8 * SECOND]);
    assert_eq!(elapsed, seconds(12));
    assert_eq!(err.model, "gpt-3.5-turbo");
    assert_eq!(err.message(), "error asking chat model gpt-3.5-turbo");
    match err.kind {
        ChatErrorKind::Request(OpenAIError::StreamError(text)) => {
            assert_eq!(text, "rate limit at 12000000000")
        }
        _ => panic!("the last error was not kept"),
    }
}

#[test]
fn a_rate_limit_at_the_limit_is_still_retried() {
    let session = Session::start("gpt-4", BackoffPolicy::standard(seconds(10)));
    let (wait, session) =
        retry_of(session.advance(Outcome::RateLimited(rate_limit()), seconds(10)));
    assert_eq!(wait, 4 * SECOND);
    let err =
        end_of(session.advance(Outcome::RateLimited(rate_limit()), seconds(10) + 1)).unwrap_err();
    assert!(matches!(err.kind, ChatErrorKind::Request(_)));
}

#[test]
fn other_failures_are_not_retried() {
    let session = Session::start("gpt-4", BackoffPolicy::standard(seconds(60)));
    let cause = OpenAIError::InvalidArgument("bad key".to_string());
    let err = end_of(session.advance(Outcome::Failed(cause), 5)).unwrap_err();
    assert_eq!(err.model, "gpt-4");
    assert_eq!(err.message(), "error asking chat model gpt-4");
    assert_eq!(err.source().unwrap().to_string(), "invalid args: bad key");
    assert!(matches!(err.kind, ChatErrorKind::Request(OpenAIError::InvalidArgument(_))));
}

#[test]
fn rate_limits_are_told_by_code_and_type() {
    assert!(is_rate_limited("requests", Some("rate_limit_exceeded")));
    assert!(is_rate_limited("tokens", Some("rate_limit_exceeded")));
    assert!(is_rate_limited("", Some("rate_limit_exceeded")));
    assert!(!is_rate_limited("insufficient_quota", Some("rate_limit_exceeded")));
    assert!(!is_rate_limited("insufficient_quota", Some("insufficient_quota")));
    assert!(!is_rate_limited("requests", Some("rate_limit_exceeded ")));
    assert!(!is_rate_limited("requests", Some("")));
    assert!(!is_rate_limited("requests", None));
    assert!(!is_rate_limited("invalid_request_error", Some("invalid_api_key")));
}

#[test]
fn begin_builds_the_request_and_opens_the_session() {
    let client = live(Span::from_secs(30), key("k")).ok().unwrap();
    let (request, session) =
        client.begin("You are a helpful assistant.", "Hello", "gpt-4", 0.3f32).ok().unwrap();
    assert_eq!(request.max_response_tokens, 8174);
    assert_eq!(request.temperature, 0.3f32);
    assert_eq!(request.model_id, "gpt-4");
    assert_eq!(session.next_delay_ns(), 4 * SECOND);
    let err =
        end_of(session.advance(Outcome::RateLimited(rate_limit()), seconds(30) + 1)).unwrap_err();
    assert_eq!(err.model, "gpt-4");
}

#[test]
fn begin_reports_a_build_failure_with_the_model() {
    let client = live(Span::from_secs(30), key("k")).ok().unwrap();
    let err = match client.begin("s", "q", "no-such-model", 0.3f32) {
        Err(err) => err,
        Ok(_) => panic!("a request was built for an unknown model"),
    };
    assert_eq!(err.model, "no-such-model");
    assert!(err.source().is_none());
    assert_eq!(
        err.message(),
        "error building chat request No tokenizer found for model no-such-model"
    );
    match err.kind {
        ChatErrorKind::BuildRequest(detail) => {
            assert_eq!(detail, "No tokenizer found for model no-such-model")
        }
        ChatErrorKind::Request(_) => panic!("a request error where none was sent"),
    }
}

#[test]
fn begin_reports_a_prompt_that_fills_the_window() {
    let client = live(Span::from_secs(30), key("k")).ok().unwrap();
    let question = "hello ".repeat(5000);
    let err = match client.begin("s", &question, "gpt-3.5-turbo", 0.3f32) {
        Err(err) => err,
        Ok(_) => panic!("a request was built with nothing left for the answer"),
    };
    assert_eq!(err.message(), "error building chat request max tokens out of range");
}

#[test]
fn chat_errors_are_built_as_named() {
    let err = ChatError::build_request("gpt-4", &BuildError::TokenBudgetOutOfRange);
    assert_eq!(err.model, "gpt-4");
    assert_eq!(err.message(), "error building chat request max tokens out of range");
    assert!(err.source().is_none());
    let err = ChatError::request("gpt-4", OpenAIError::FileReadError("gone".to_string()));
    assert_eq!(err.message(), "error asking chat model gpt-4");
    assert_eq!(err.source().unwrap().to_string(), "failed to read file: gone");
}
