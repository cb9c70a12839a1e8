//! One question on its way: what each attempt to send it came to, and what
//! follows from that.
use crate::error::ChatError;
use crate::error::ChatErrorKind;
use crate::response::ChatResponse;
use crate::retry::BackoffPolicy;
use async_openai::error::OpenAIError;
use vstd::prelude::*;

verus! {

/// Whether an error object of the service reports a rate limit: its code
/// says so, and its type is not that of a used-up quota.
pub open spec fn rate_limited(error_type: Seq<char>, code: Option<Seq<char>>) -> bool {
    code == Some("rate_limit_exceeded"@) && error_type != "insufficient_quota"@
}

/// Whether an error object of the service, with this type and this code,
/// reports a rate limit, so that the attempt is one to retry.
pub fn is_rate_limited(error_type: &str, code: Option<&str>) -> (r: bool)
    ensures
        r == rate_limited(
            error_type@,
            match code {
                Some(text) => Some(text@),
                None => None,
            },
        ),
{
    match code {
        Some(text) => same_text(text, "rate_limit_exceeded") && !same_text(
            error_type,
            "insufficient_quota",
        ),
        None => false,
    }
}

/// Whether two texts are the same.
fn same_text(left: &str, right: &str) -> (r: bool)
    ensures
        r == (left@ == right@),
{
    left.to_string() == right.to_string()
}

/// What one attempt to send the request came to.
pub enum Outcome {
    /// The service answered.
    Answered(ChatResponse),
    /// The service refused the attempt for the rate of requests.
    RateLimited(OpenAIError),
    /// The attempt failed for any other reason.
    Failed(OpenAIError),
}

/// What follows an attempt.
pub enum Step {
    /// Wait `delay_ns` nanoseconds, send the request again, and hand what
    /// that comes to to `next`.
    Retry { delay_ns: u64, next: Session },
    /// The question is over, with its answer or its error.
    Finished(Result<String, ChatError>),
}

/// One question on its way: the model it is for, the backoff policy of the
/// client, and the number of retries made so far.
pub struct Session {
    model: String,
    policy: BackoffPolicy,
    next_delay_ns: u64,
    retries: Ghost<nat>,
}

impl Session {
    #[verifier::type_invariant]
    spec fn consistent(self) -> bool {
        self.next_delay_ns == self.policy.delay(self.retries@)
    }

    /// The model that the question is for.
    pub closed spec fn model(self) -> Seq<char> {
        self.model@
    }

    /// The backoff policy that spaces the retries.
    pub closed spec fn policy(self) -> BackoffPolicy {
        self.policy
    }

    /// The number of retries made so far.
    pub closed spec fn retries(self) -> nat {
        self.retries@
    }

    /// A question for `model` that has not been sent yet.
    pub fn start(model: &str, policy: BackoffPolicy) -> (r: Session)
        ensures
            r.model() == model@,
            r.policy() == policy,
            r.retries() == 0,
    {
        Session {
            model: model.to_string(),
            policy,
            next_delay_ns: policy.initial_interval_ns,
            retries: Ghost(0),
        }
    }

    /// The wait that a retry would take now.
    pub fn next_delay_ns(&self) -> (r: u64)
        ensures
            r == self.policy().delay(self.retries()),
    {
        proof {
            use_type_invariant(self);
        }
        self.next_delay_ns
    }

    /// Decides what follows an attempt that ended `elapsed_ns` nanoseconds
    /// after the first attempt began.
    ///
    /// An answer ends the question with the joined texts of its choices. A
    /// rate-limited attempt is retried after the policy's next wait, as long
    /// as `elapsed_ns` has not passed the policy's limit; past it, and for
    /// every other failure, the question ends with the attempt's error.
    pub fn advance(self, outcome: Outcome, elapsed_ns: u128) -> (step: Step)
        ensures
            match outcome {
                Outcome::Answered(response) => step matches Step::Finished(Ok(answer))
                    && answer@ == response.spec_answer(),
                Outcome::RateLimited(cause) => if self.policy().allows_retry(elapsed_ns as nat) {
                    &&& step matches Step::Retry { delay_ns, next }
                    &&& delay_ns == self.policy().delay(self.retries())
                    &&& next.model() == self.model()
                    &&& next.policy() == self.policy()
                    &&& next.retries() == self.retries() + 1
                } else {
                    &&& step matches Step::Finished(Err(e))
                    &&& e.model@ == self.model()
                    &&& e.kind == ChatErrorKind::Request(cause)
                },
                Outcome::Failed(cause) => {
                    &&& step matches Step::Finished(Err(e))
                    &&& e.model@ == self.model()
                    &&& e.kind == ChatErrorKind::Request(cause)
                },
            },
    {
        proof {
            use_type_invariant(&self);
        }
        match outcome {
            Outcome::Answered(response) => Step::Finished(Ok(response.answer())),
            Outcome::RateLimited(cause) => {
                if self.policy.may_retry(elapsed_ns) {
                    let delay_ns = self.next_delay_ns;
                    let next = Session {
                        model: self.model,
                        policy: self.policy,
                        next_delay_ns: self.policy.grow(delay_ns),
                        retries: Ghost(self.retries@ + 1),
                    };
                    Step::Retry { delay_ns, next }
                } else {
                    Step::Finished(Err(ChatError::request(self.model.as_str(), cause)))
                }
            },
            Outcome::Failed(cause) => Step::Finished(
                Err(ChatError::request(self.model.as_str(), cause)),
            ),
        }
    }
}

} // verus!
