//! Building a chat request: the two role-tagged messages, and the completion
//! budget that the model's context window leaves after the prompt.
use crate::error::BuildError;
use crate::error::BuildErrorKind;
use async_openai::error::OpenAIError;
use async_openai::types::ChatCompletionRequestMessage;
use async_openai::types::ChatCompletionRequestMessageArgs;
use vstd::prelude::*;
use vstd::string::*;

verus! {

/// The error type of the tokenizer crate's counting functions.
#[verifier::external_type_specification]
#[verifier::external_body]
pub struct ExCountError(anyhow::Error);

/// The largest completion budget that the wire protocol's max-token field carries.
pub const MAX_PROTOCOL_TOKENS: usize = 65535;

/// The largest message content, in bytes of UTF-8, that is handed to the
/// tokenizer. The tokenizer splits a text with a backtracking matcher, which
/// stacks about one branch for each character of a run of like characters
/// and gives up, and the tokenizer with it, at a million stacked branches or
/// a million retries in one match. A content of this size stays well below
/// both limits. It also keeps the tokenizer's 32-bit counter, which grows by
/// at most one for each byte, far from its end.
pub const MAX_MESSAGE_BYTES: usize = 262144;

/// Who speaks in a message.
#[derive(Clone, Copy, Debug, PartialEq, Eq, Structural)]
pub enum Role {
    System,
    User,
    Assistant,
}

/// One role-tagged message of a conversation.
#[derive(Clone, Debug, PartialEq, Eq)]
pub struct ChatMessage {
    pub role: Role,
    pub content: String,
}

impl View for ChatMessage {
    type V = (Role, Seq<char>);

    open spec fn view(&self) -> (Role, Seq<char>) {
        (self.role, self.content@)
    }
}

/// A request that is ready to be sent: the model, the sampling temperature,
/// the two prompts and the number of tokens left for the answer. The
/// temperature is carried through as it was given.
#[derive(Debug)]
pub struct ChatRequest<T> {
    pub system_prompt: String,
    pub user_prompt: String,
    pub model_id: String,
    pub temperature: T,
    pub max_response_tokens: u16,
}

/// The context window of a model, in tokens, as the tokenizer crate's table gives it.
pub uninterp spec fn context_window(model: Seq<char>) -> nat;

/// The number of tokens that a conversation takes up for a model, by the
/// tokenizer crate's count; `None` where it cannot count for that model.
pub uninterp spec fn prompt_tokens(model: Seq<char>, messages: Seq<(Role, Seq<char>)>) -> Option<
    nat,
>;

/// The conversation that a request carries: the system prompt, then the question.
pub open spec fn conversation(system: Seq<char>, question: Seq<char>) -> Seq<(Role, Seq<char>)> {
    seq![(Role::System, system), (Role::User, question)]
}

/// The length of a text in bytes of UTF-8, as `str::len` reports it.
pub open spec fn utf8_len(text: Seq<char>) -> usize {
    vstd::utf8::encode_utf8(text).len() as usize
}

/// Whether a prompt is small enough to be handed to the tokenizer: neither
/// message is longer than `MAX_MESSAGE_BYTES`.
pub open spec fn countable(system: Seq<char>, question: Seq<char>) -> bool {
    utf8_len(system) <= MAX_MESSAGE_BYTES && utf8_len(question) <= MAX_MESSAGE_BYTES
}

/// What a context window leaves for the answer once the prompt is counted:
/// the difference, and nothing where the prompt fills the window.
pub open spec fn completion_budget(window: nat, consumed: nat) -> nat {
    if consumed >= window {
        0
    } else {
        (window - consumed) as nat
    }
}

/// Whether a completion budget can stand in a request: something is left
/// for the answer, and the wire protocol can carry the number.
pub open spec fn budget_in_range(budget: nat) -> bool {
    1 <= budget <= MAX_PROTOCOL_TOKENS
}

/// The number of tokens that a prompt takes up for a model, where the library
/// has a count: the prompt is small enough to be handed to the tokenizer, and
/// the tokenizer counts for the model.
pub open spec fn counted_tokens(system: Seq<char>, question: Seq<char>, model: Seq<char>) -> Option<
    nat,
> {
    if !countable(system, question) {
        None
    } else {
        prompt_tokens(model, conversation(system, question))
    }
}

/// What building the request for a prompt and a model comes to: the
/// completion budget of the request, or the reason why there is none.
pub open spec fn build_outcome(system: Seq<char>, question: Seq<char>, model: Seq<char>) -> Result<
    nat,
    BuildErrorKind,
> {
    match counted_tokens(system, question, model) {
        None => Err(BuildErrorKind::TokenCountUnavailable),
        Some(consumed) => {
            let budget = completion_budget(context_window(model), consumed);
            if budget_in_range(budget) {
                Ok(budget)
            } else {
                Err(BuildErrorKind::TokenBudgetOutOfRange)
            }
        },
    }
}

/// Calls `ChatCompletionRequestMessageArgs::build` of the client crate on a
/// builder that was given this role and content. Trusted: the call succeeds,
/// since every field of the message has a default and the builder validates
/// nothing, and the built message holds the role and the content that the
/// builder was given.
#[verifier::external_body]
fn build_message(role: Role, content: &str) -> (r: Result<ChatMessage, OpenAIError>)
    ensures
        r is Ok,
        r matches Ok(m) ==> m.role == role && m.content@ == content@,
{
    let outside = match role {
        Role::System => async_openai::types::Role::System,
        Role::User => async_openai::types::Role::User,
        Role::Assistant => async_openai::types::Role::Assistant,
    };
    let built = ChatCompletionRequestMessageArgs::default().content(content).role(outside).build()?;
    let role = match built.role {
        async_openai::types::Role::System => Role::System,
        async_openai::types::Role::User => Role::User,
        async_openai::types::Role::Assistant => Role::Assistant,
    };
    Ok(ChatMessage { role, content: built.content })
}

/// Calls `tiktoken_rs::model::get_context_size`. Trusted: the result is the
/// model's context window.
#[verifier::external_body]
fn context_size(model: &str) -> (r: usize)
    ensures
        r == context_window(model@),
{
    tiktoken_rs::model::get_context_size(model)
}

/// Calls `tiktoken_rs::async_openai::num_tokens_from_messages` on the two
/// messages, in this order. Trusted: the result is the count that
/// `prompt_tokens` names, and an error where it names none. Each content is
/// kept within `MAX_MESSAGE_BYTES`, so that the matcher inside the tokenizer
/// does not give up and its 32-bit counter holds the count.
#[verifier::external_body]
fn count_prompt_tokens(model: &str, first: &ChatMessage, second: &ChatMessage) -> (r: Result<
    usize,
    anyhow::Error,
>)
    requires
        countable(first.content@, second.content@),
    ensures
        match r {
            Ok(n) => prompt_tokens(model@, seq![first@, second@]) == Some(n as nat),
            Err(_) => prompt_tokens(model@, seq![first@, second@]) is None,
        },
{
    let outside = [first, second].map(
        |m| ChatCompletionRequestMessage {
            role: match m.role {
                Role::System => async_openai::types::Role::System,
                Role::User => async_openai::types::Role::User,
                Role::Assistant => async_openai::types::Role::Assistant,
            },
            content: m.content.clone(),
            name: None,
        },
    );
    tiktoken_rs::async_openai::num_tokens_from_messages(model, &outside)
}

/// What is left of a context window of `window` tokens after a prompt of
/// `consumed` tokens.
pub fn remaining_tokens(window: usize, consumed: usize) -> (r: usize)
    ensures
        r == completion_budget(window as nat, consumed as nat),
{
    if consumed >= window {
        0
    } else {
        window - consumed
    }
}

impl<T> ChatRequest<T> {
    /// Assembles the request for a prompt that takes `consumed` tokens of a
    /// context window of `window` tokens. Fails where nothing is left for
    /// the answer, and where what is left does not fit the wire protocol's
    /// max-token field.
    pub fn with_budget(
        system: &str,
        question: &str,
        model: &str,
        temperature: T,
        window: usize,
        consumed: usize,
    ) -> (r: Result<ChatRequest<T>, BuildError>)
        ensures
            match r {
                Ok(request) => {
                    &&& budget_in_range(completion_budget(window as nat, consumed as nat))
                    &&& request.max_response_tokens == completion_budget(
                        window as nat,
                        consumed as nat,
                    )
                    &&& request.max_response_tokens >= 1
                    &&& consumed + request.max_response_tokens == window
                    &&& request.system_prompt@ == system@
                    &&& request.user_prompt@ == question@
                    &&& request.model_id@ == model@
                    &&& request.temperature == temperature
                },
                Err(e) => {
                    &&& !budget_in_range(completion_budget(window as nat, consumed as nat))
                    &&& e == BuildError::TokenBudgetOutOfRange
                },
            },
    {
        let budget = remaining_tokens(window, consumed);
        if budget == 0 || budget > MAX_PROTOCOL_TOKENS {
            return Err(BuildError::TokenBudgetOutOfRange);
        }
        Ok(
            ChatRequest {
                system_prompt: system.to_string(),
                user_prompt: question.to_string(),
                model_id: model.to_string(),
                temperature,
                max_response_tokens: budget as u16,
            },
        )
    }

    /// The conversation of this request: the system message, then the user message.
    pub fn messages(&self) -> (r: Vec<ChatMessage>)
        ensures
            r@.len() == 2,
            r@[0]@ == (Role::System, self.system_prompt@),
            r@[1]@ == (Role::User, self.user_prompt@),
    {
        let mut out: Vec<ChatMessage> = Vec::new();
        out.push(ChatMessage { role: Role::System, content: self.system_prompt.clone() });
        out.push(ChatMessage { role: Role::User, content: self.user_prompt.clone() });
        out
    }
}

/// Builds the request for a question to `model` under the system prompt
/// `system`.
///
/// The system message is built first, then the user message. The prompt is
/// then counted for the model, and what the model's context window leaves
/// becomes the request's completion budget. A message above
/// `MAX_MESSAGE_BYTES` and a model that the tokenizer does not know are
/// errors, and so is a budget of nothing or of more than
/// `MAX_PROTOCOL_TOKENS`.
pub fn build_request<T>(system: &str, question: &str, model: &str, temperature: T) -> (r: Result<
    ChatRequest<T>,
    BuildError,
>)
    ensures
        match r {
            Ok(request) => {
                &&& build_outcome(system@, question@, model@) == Ok::<nat, BuildErrorKind>(
                    request.max_response_tokens as nat,
                )
                &&& request.max_response_tokens >= 1
                &&& counted_tokens(system@, question@, model@) matches Some(consumed)
                &&& consumed + request.max_response_tokens == context_window(model@)
                &&& request.system_prompt@ == system@
                &&& request.user_prompt@ == question@
                &&& request.model_id@ == model@
                &&& request.temperature == temperature
            },
            Err(e) => build_outcome(system@, question@, model@) == Err::<nat, BuildErrorKind>(
                e.kind(),
            ),
        },
        r matches Err(BuildError::TokenCountUnavailable(text)) ==> (!countable(system@, question@)
            ==> text@ == "prompt too long to count"@),
{
    let system_message = match build_message(Role::System, system) {
        Ok(message) => message,
        Err(e) => {
            return Err(BuildError::InvalidMessage(e.to_string()));
        },
    };
    let user_message = match build_message(Role::User, question) {
        Ok(message) => message,
        Err(e) => {
            return Err(BuildError::InvalidMessage(e.to_string()));
        },
    };
    if system_message.content.as_str().len() > MAX_MESSAGE_BYTES
        || user_message.content.as_str().len() > MAX_MESSAGE_BYTES {
        return Err(BuildError::TokenCountUnavailable("prompt too long to count".to_string()));
    }
    let window = context_size(model);
    let consumed = match count_prompt_tokens(model, &system_message, &user_message) {
        Ok(n) => n,
        Err(e) => {
            return Err(BuildError::TokenCountUnavailable(e.to_string()));
        },
    };
    assert(seq![system_message@, user_message@] =~= conversation(system@, question@));
    ChatRequest::with_budget(
        system_message.content.as_str(),
        user_message.content.as_str(),
        model,
        temperature,
        window,
        consumed,
    )
}

/// A prompt whose count is under the model's context window gets what the
/// window leaves as its completion budget, where the protocol can carry
/// that much.
pub proof fn lemma_prompt_within_window(
    system: Seq<char>,
    question: Seq<char>,
    model: Seq<char>,
    consumed: nat,
)
    requires
        counted_tokens(system, question, model) == Some(consumed),
        consumed < context_window(model),
        context_window(model) - consumed <= MAX_PROTOCOL_TOKENS,
    ensures
        build_outcome(system, question, model) == Ok::<nat, BuildErrorKind>(
            (context_window(model) - consumed) as nat,
        ),
{
}

/// A prompt that leaves more than the protocol can carry is out of range.
pub proof fn lemma_budget_above_protocol(
    system: Seq<char>,
    question: Seq<char>,
    model: Seq<char>,
    consumed: nat,
)
    requires
        counted_tokens(system, question, model) == Some(consumed),
        context_window(model) - consumed > MAX_PROTOCOL_TOKENS,
    ensures
        build_outcome(system, question, model) == Err::<nat, BuildErrorKind>(
            BuildErrorKind::TokenBudgetOutOfRange,
        ),
{
}

/// A prompt that fills the model's context window, or more than fills it,
/// leaves nothing for the answer and is out of range.
pub proof fn lemma_prompt_fills_window(
    system: Seq<char>,
    question: Seq<char>,
    model: Seq<char>,
    consumed: nat,
)
    requires
        counted_tokens(system, question, model) == Some(consumed),
        consumed >= context_window(model),
    ensures
        build_outcome(system, question, model) == Err::<nat, BuildErrorKind>(
            BuildErrorKind::TokenBudgetOutOfRange,
        ),
{
}

/// A model for which the tokenizer cannot count has no token count, whatever
/// the prompt.
pub proof fn lemma_model_without_count(system: Seq<char>, question: Seq<char>, model: Seq<char>)
    requires
        prompt_tokens(model, conversation(system, question)) is None,
    ensures
        build_outcome(system, question, model) == Err::<nat, BuildErrorKind>(
            BuildErrorKind::TokenCountUnavailable,
        ),
{
}

/// The budget of a built request is at least one token, and the prompt and
/// the budget together fill the model's context window exactly.
pub proof fn lemma_budget_fits_window(
    system: Seq<char>,
    question: Seq<char>,
    model: Seq<char>,
    budget: nat,
)
    requires
        build_outcome(system, question, model) == Ok::<nat, BuildErrorKind>(budget),
    ensures
        1 <= budget <= MAX_PROTOCOL_TOKENS,
        counted_tokens(system, question, model) matches Some(consumed) && consumed + budget
            == context_window(model),
{
}

} // verus!
