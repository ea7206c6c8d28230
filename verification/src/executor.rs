//! Retry/validation executor: wraps one request/response exchange with the
//! generative-text port. The control decisions form an explicit state
//! machine with a pure, fully specified transition function; the loop only
//! drives it. A length-limited response is a distinct terminal outcome and
//! is never retried here; other failures are retried with exponential
//! backoff until the attempt budget runs out.

use vstd::prelude::*;
use vstd::string::*;

use crate::errors::{LlmError, LlmRetryError};
use crate::sanitize::clean_json_response;
use crate::textutil::{chars_to_string, push_u64_digits, spec_digits, subvec, to_chars};

verus! {

/// Why the port stopped generating.
#[derive(Clone, Copy, Debug, PartialEq, Eq, Structural)]
pub enum FinishReason {
    Stop,
    Length,
    Error,
}

impl DeepView for FinishReason {
    type V = FinishReason;

    open spec fn deep_view(&self) -> FinishReason {
        *self
    }
}

/// Mathematical model of an `LlmResponse`.
pub struct LlmResponseView {
    pub content: Seq<char>,
    pub tokens_used: usize,
    pub finish_reason: FinishReason,
}

/// One response of the generative-text port.
#[derive(Clone, Debug)]
pub struct LlmResponse {
    pub content: String,
    pub tokens_used: usize,
    pub finish_reason: FinishReason,
}

impl DeepView for LlmResponse {
    type V = LlmResponseView;

    open spec fn deep_view(&self) -> LlmResponseView {
        LlmResponseView {
            content: self.content@,
            tokens_used: self.tokens_used,
            finish_reason: self.finish_reason,
        }
    }
}

/// Description of the model behind the port.
#[derive(Clone, Debug)]
pub struct LlmModelInfo {
    pub name: String,
    pub provider: String,
    pub context_size: Option<usize>,
}

/// The generative-text port: one call produces text, a consumed-size metric
/// and a completion status. Implementations live with the caller (a real
/// network adapter) or in tests (a scripted mock); nothing is assumed of
/// what they return.
pub trait LlmPort {
    /// One generation exchange.
    fn generate_json(&mut self, system_prompt: &str, user_prompt: &str) -> Result<
        LlmResponse,
        LlmError,
    >;

    /// Waits out a backoff delay between retries.
    fn backoff(&mut self, seconds: u64);
}

/// Decodes sanitized text into a typed value and optionally vets it; a
/// returned reason forces another attempt.
pub trait OutputDecoder<T> {
    /// Schema decode of sanitized text; failure is recoverable.
    fn decode(&self, text: &str) -> Result<T, String>;

    /// Semantic check of a decoded value; a reason rejects it.
    fn validate(&self, value: &T, attempt: usize, max_retries: usize) -> Option<String>;
}

// ---------------------------------------------------------------------------
// The retry state machine
// ---------------------------------------------------------------------------

/// Where a retried exchange stands.
#[derive(Clone, Copy, Debug, PartialEq, Eq, Structural)]
pub enum RetryState {
    /// About to make the attempt with this index (0-based).
    Attempting { attempt: usize },
    /// Waiting out a delay before the next attempt.
    BackingOff { next_attempt: usize, delay_secs: u64 },
    /// A decoded value was accepted.
    Accepted,
    /// The attempt budget is exhausted.
    Exhausted,
    /// The response was cut short by the size limit; terminal, never
    /// retried at this level.
    CutShort,
}

/// What one attempt produced.
#[derive(Clone, Copy, Debug, PartialEq, Eq, Structural)]
pub enum RetryEvent {
    PortFailure,
    Truncated,
    ParseFailure,
    ValidationRejected,
    OutputAccepted,
}

/// The backoff before the given attempt: 2^attempt seconds, at most 30.
pub open spec fn spec_backoff(attempt: usize) -> u64 {
    if attempt == 0 {
        1
    } else if attempt == 1 {
        2
    } else if attempt == 2 {
        4
    } else if attempt == 3 {
        8
    } else if attempt == 4 {
        16
    } else {
        30
    }
}

pub fn backoff_delay(attempt: usize) -> (r: u64)
    ensures
        r == spec_backoff(attempt),
{
    if attempt == 0 {
        1
    } else if attempt == 1 {
        2
    } else if attempt == 2 {
        4
    } else if attempt == 3 {
        8
    } else if attempt == 4 {
        16
    } else {
        30
    }
}

/// The pure transition of the retry state machine, from the state of an
/// attempt and its outcome: acceptance ends the exchange; a cut-short
/// response is terminal at once, whatever the attempt index and without any
/// backoff; any other failure backs off and retries while attempts remain,
/// and exhausts the exchange otherwise.
pub fn retry_transition(state: RetryState, event: RetryEvent, max_retries: usize) -> (r:
    RetryState)
    requires
        max_retries < usize::MAX,
    ensures
        (state matches RetryState::Attempting { attempt } ==> r == (match event {
            RetryEvent::OutputAccepted => RetryState::Accepted,
            RetryEvent::Truncated => RetryState::CutShort,
            _ => {
                if attempt < max_retries {
                    (RetryState::BackingOff {
                        next_attempt: (attempt + 1) as usize,
                        delay_secs: spec_backoff((attempt + 1) as usize),
                    })
                } else {
                    RetryState::Exhausted
                }
            },
        })),
        (!(state matches RetryState::Attempting { .. }) ==> r == state),
{
    match state {
        RetryState::Attempting { attempt } => match event {
            RetryEvent::OutputAccepted => RetryState::Accepted,
            RetryEvent::Truncated => RetryState::CutShort,
            _ => {
                if attempt < max_retries {
                    RetryState::BackingOff {
                        next_attempt: attempt + 1,
                        delay_secs: backoff_delay(attempt + 1),
                    }
                } else {
                    RetryState::Exhausted
                }
            },
        },
        other => other,
    }
}

/// Leaving the backoff resumes the attempt it was waiting for; every other
/// state is unchanged.
pub fn resume_after_backoff(state: RetryState) -> (r: RetryState)
    ensures
        (state matches RetryState::BackingOff { next_attempt, .. } ==> r == (
        RetryState::Attempting { attempt: next_attempt })),
        (!(state matches RetryState::BackingOff { .. }) ==> r == state),
{
    match state {
        RetryState::BackingOff { next_attempt, .. } => RetryState::Attempting {
            attempt: next_attempt,
        },
        other => other,
    }
}

// ---------------------------------------------------------------------------
// Failure details
// ---------------------------------------------------------------------------

/// The details recorded for a cut-short response.
pub open spec fn spec_truncated_details(tokens: usize, chars: nat) -> Seq<char> {
    "Reponse tronquee apres "@ + spec_digits(tokens as nat) + " tokens ("@ + spec_digits(chars)
        + " chars)"@
}

fn truncated_details(tokens: usize, chars: usize) -> (r: String)
    ensures
        r@ == spec_truncated_details(tokens, chars as nat),
{
    let mut v = to_chars("Reponse tronquee apres ");
    push_u64_digits(tokens as u64, &mut v);
    let mut mid = to_chars(" tokens (");
    v.append(&mut mid);
    push_u64_digits(chars as u64, &mut v);
    let mut tail = to_chars(" chars)");
    v.append(&mut tail);
    let s = chars_to_string(&v);
    proof {
        assert(s@ =~= spec_truncated_details(tokens, chars as nat));
    }
    s
}

/// The details recorded for a failed schema decode: the decoder's reason and
/// a preview of at most 500 characters of the cleaned text.
pub open spec fn spec_parse_details(reason: Seq<char>, cleaned: Seq<char>) -> Seq<char> {
    "Parsing JSON: "@ + reason + " | Reponse: "@ + (if cleaned.len() > 500 {
        cleaned.take(500)
    } else {
        cleaned
    })
}

fn parse_details(reason: &String, cleaned: &Vec<char>) -> (r: String)
    ensures
        r@ == spec_parse_details(reason@, cleaned@),
{
    let mut v = to_chars("Parsing JSON: ");
    let mut rs = to_chars(reason.as_str());
    v.append(&mut rs);
    let mut mid = to_chars(" | Reponse: ");
    v.append(&mut mid);
    let mut preview = if cleaned.len() > 500 {
        subvec(cleaned, 0, 500)
    } else {
        subvec(cleaned, 0, cleaned.len())
    };
    proof {
        if cleaned@.len() <= 500 {
            assert(preview@ =~= cleaned@);
        }
    }
    v.append(&mut preview);
    let s = chars_to_string(&v);
    proof {
        assert(s@ =~= spec_parse_details(reason@, cleaned@));
    }
    s
}

/// The details recorded for a port failure.
pub open spec fn spec_port_details(message: Seq<char>) -> Seq<char> {
    "Appel LLM: "@ + message
}

fn port_details(e: &LlmError) -> (r: String)
    ensures
        r@ == spec_port_details(crate::errors::spec_llm_error_message(e.deep_view())),
{
    let mut s = String::from_str("Appel LLM: ");
    let m = e.message();
    s.append(m.as_str());
    proof {
        assert(s@ =~= spec_port_details(crate::errors::spec_llm_error_message(e.deep_view())));
    }
    s
}

// ---------------------------------------------------------------------------
// The retried exchange
// ---------------------------------------------------------------------------

/// Runs one request/response exchange with retries: up to `max_retries`
/// additional attempts after the first, a backoff before each retry, a
/// sanitize-decode-validate pass on each normal response. A length-limited
/// response ends the exchange at once as `Truncated`; exhausting the budget
/// yields `Failed` with the last recorded cause. A `Truncated` detail always
/// carries the token count and character count of the cut response; a
/// `Failed` detail is the last cause recorded before exhaustion, which is a
/// parse detail, a port detail, or a reason the caller's validator returned
/// (the validator's text is the caller's, so only its provenance is stated).
pub fn call_with_retry<T, P: LlmPort, D: OutputDecoder<T>>(
    port: &mut P,
    decoder: &D,
    system_prompt: &str,
    user_prompt: &str,
    max_retries: usize,
) -> (r: Result<T, LlmRetryError>)
    requires
        max_retries < usize::MAX,
    ensures
        (r matches Err(LlmRetryError::Truncated { details }) ==> exists|t: usize, c: nat|
            details@ == spec_truncated_details(t, c)),
{
    let mut last_error: String = String::new();
    let mut state: RetryState = RetryState::Attempting { attempt: 0 };
    loop
        invariant
            max_retries < usize::MAX,
            (state matches RetryState::Attempting { attempt } && attempt <= max_retries),
        decreases max_retries + 1 - (match state {
            RetryState::Attempting { attempt } => attempt as int,
            _ => 0,
        }),
    {
        let attempt: usize = match state {
            RetryState::Attempting { attempt } => attempt,
            _ => 0,
        };
        if attempt > 0 {
            port.backoff(backoff_delay(attempt));
        }
        let event: RetryEvent;
        let mut accepted: Option<T> = None;
        match port.generate_json(system_prompt, user_prompt) {
            Ok(response) => {
                if response.finish_reason == FinishReason::Length {
                    let chars = to_chars(response.content.as_str());
                    let details = truncated_details(response.tokens_used, chars.len());
                    proof {
                        let t0 = response.tokens_used;
                        let c0 = chars@.len() as nat;
                        assert(details@ == spec_truncated_details(t0, c0));
                    }
                    return Err(LlmRetryError::Truncated { details });
                }
                let cleaned = clean_json_response(response.content.as_str());
                match decoder.decode(cleaned.as_str()) {
                    Ok(output) => {
                        match decoder.validate(&output, attempt, max_retries) {
                            Some(reason) => {
                                last_error = reason;
                                event = RetryEvent::ValidationRejected;
                            },
                            None => {
                                accepted = Some(output);
                                event = RetryEvent::OutputAccepted;
                            },
                        }
                    },
                    Err(reason) => {
                        let cleaned_chars = to_chars(cleaned.as_str());
                        last_error = parse_details(&reason, &cleaned_chars);
                        event = RetryEvent::ParseFailure;
                    },
                }
            },
            Err(e) => {
                last_error = port_details(&e);
                event = RetryEvent::PortFailure;
            },
        }
        state = retry_transition(state, event, max_retries);
        match state {
            RetryState::Accepted => {
                match accepted {
                    Some(output) => {
                        return Ok(output);
                    },
                    None => {
                        // acceptance always carries the decoded value
                        assert(false);
                    },
                }
            },
            RetryState::Exhausted => {
                return Err(LlmRetryError::Failed { details: last_error });
            },
            _ => {},
        }
        state = resume_after_backoff(state);
    }
}

// ---------------------------------------------------------------------------
// A scripted port for tests
// ---------------------------------------------------------------------------

/// A port that replays scripted responses, cycling when it runs out, and
/// records every call and every backoff.
pub struct MockLlmAdapter {
    pub responses: Vec<LlmResponse>,
    pub calls: usize,
    pub backoffs: Vec<u64>,
}

impl MockLlmAdapter {
    /// A mock whose scripted responses all complete normally.
    pub fn new(contents: Vec<String>) -> (r: Self)
        ensures
            r.responses@.len() == contents@.len(),
            r.calls == 0,
            r.backoffs@.len() == 0,
    {
        let mut responses: Vec<LlmResponse> = Vec::new();
        let ghost n = contents@.len();
        let mut contents = contents;
        while contents.len() > 0
            invariant
                responses@.len() + contents@.len() == n,
            decreases contents@.len(),
        {
            let content = contents.remove(0);
            responses.push(
                LlmResponse { content, tokens_used: 100, finish_reason: FinishReason::Stop },
            );
        }
        MockLlmAdapter { responses, calls: 0, backoffs: Vec::new() }
    }

    /// A mock with fully scripted responses.
    pub fn with_responses(responses: Vec<LlmResponse>) -> (r: Self)
        ensures
            r.responses@ == responses@,
            r.calls == 0,
            r.backoffs@.len() == 0,
    {
        MockLlmAdapter { responses, calls: 0, backoffs: Vec::new() }
    }

    /// How many generation calls were made.
    pub fn call_count(&self) -> (r: usize)
        ensures
            r == self.calls,
    {
        self.calls
    }
}

impl LlmPort for MockLlmAdapter {
    /// Replays the next scripted response; with an empty script the port
    /// reports a configuration failure.
    fn generate_json(&mut self, system_prompt: &str, user_prompt: &str) -> Result<
        LlmResponse,
        LlmError,
    > {
        if self.responses.len() == 0 {
            return Err(LlmError::ConfigError(String::from_str("aucune reponse scriptee")));
        }
        let idx: usize = self.calls % self.responses.len();
        if self.calls < usize::MAX {
            self.calls = self.calls + 1;
        }
        Ok(self.responses[idx].clone())
    }

    fn backoff(&mut self, seconds: u64) {
        self.backoffs.push(seconds);
    }
}

} // verus!
