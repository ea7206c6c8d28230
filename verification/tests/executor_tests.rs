use spec_forge::errors::LlmRetryError;
use spec_forge::executor::{backoff_delay, call_with_retry, resume_after_backoff,
    retry_transition, FinishReason, LlmPort, LlmResponse, MockLlmAdapter, OutputDecoder,
    RetryEvent, RetryState};

/// Decodes any JSON value.
struct ValueDecoder;

impl OutputDecoder<serde_json::Value> for ValueDecoder {
    fn decode(&self, text: &str) -> Result<serde_json::Value, String> {
        serde_json::from_str::<serde_json::Value>(text).map_err(|e| e.to_string())
    }

    fn validate(&self, _value: &serde_json::Value, _attempt: usize, _max: usize) -> Option<String> {
        None
    }
}

/// Decodes JSON but demands a string field named "required".
struct StrictDecoder;

impl OutputDecoder<serde_json::Value> for StrictDecoder {
    fn decode(&self, text: &str) -> Result<serde_json::Value, String> {
        let v = serde_json::from_str::<serde_json::Value>(text).map_err(|e| e.to_string())?;
        if v.get("required").and_then(|x| x.as_str()).is_none() {
            return Err("champ requis absent".to_string());
        }
        Ok(v)
    }

    fn validate(&self, _value: &serde_json::Value, _attempt: usize, _max: usize) -> Option<String> {
        None
    }
}

/// Rejects values whose "count" is below one.
struct CountDecoder;

impl OutputDecoder<serde_json::Value> for CountDecoder {
    fn decode(&self, text: &str) -> Result<serde_json::Value, String> {
        serde_json::from_str::<serde_json::Value>(text).map_err(|e| e.to_string())
    }

    fn validate(&self, value: &serde_json::Value, _attempt: usize, _max: usize) -> Option<String> {
        if value["count"].as_i64().unwrap_or(0) < 1 {
            Some("count doit etre >= 1".to_string())
        } else {
            None
        }
    }
}

/// Rejects everything.
struct AlwaysReject;

impl OutputDecoder<serde_json::Value> for AlwaysReject {
    fn decode(&self, text: &str) -> Result<serde_json::Value, String> {
        serde_json::from_str::<serde_json::Value>(text).map_err(|e| e.to_string())
    }

    fn validate(&self, _value: &serde_json::Value, _attempt: usize, _max: usize) -> Option<String> {
        Some("toujours rejete".to_string())
    }
}

fn stop_response(content: &str, tokens: usize) -> LlmResponse {
    LlmResponse {
        content: content.to_string(),
        tokens_used: tokens,
        finish_reason: FinishReason::Stop,
    }
}

#[test]
fn test_call_with_retry_succes() {
    let mut adapter = MockLlmAdapter::with_responses(vec![stop_response("{\"value\": 42}", 10)]);
    let result = call_with_retry(&mut adapter, &ValueDecoder, "sys", "usr", 2);
    assert!(result.is_ok());
    assert_eq!(result.unwrap()["value"], 42);
}

#[test]
fn test_call_with_retry_troncature() {
    let mut adapter = MockLlmAdapter::with_responses(vec![LlmResponse {
        content: "{}".to_string(),
        tokens_used: 100,
        finish_reason: FinishReason::Length,
    }]);
    let result = call_with_retry(&mut adapter, &ValueDecoder, "sys", "usr", 2);
    assert!(result.is_err());
    let err = result.unwrap_err();
    assert!(matches!(err, LlmRetryError::Truncated { .. }));
}

#[test]
fn test_call_with_retry_parse_echoue() {
    let mut adapter = MockLlmAdapter::with_responses(vec![
        stop_response("pas du json", 10),
        stop_response("toujours pas", 10),
    ]);
    let result = call_with_retry(&mut adapter, &StrictDecoder, "sys", "usr", 1);
    assert!(result.is_err(), "must fail once the retries are exhausted");
    assert!(matches!(result.unwrap_err(), LlmRetryError::Failed { .. }));
}

#[test]
fn test_retry_succes_deuxieme_tentative() {
    // first response is invalid, the second decodes
    let mut adapter = MockLlmAdapter::with_responses(vec![
        stop_response("pas du json", 10),
        stop_response("{\"value\": 42}", 15),
    ]);
    let result = call_with_retry(&mut adapter, &ValueDecoder, "sys", "usr", 1);
    assert!(result.is_ok(), "should succeed on the second attempt: {:?}", result.err());
    assert_eq!(result.unwrap()["value"], 42);
    assert_eq!(adapter.call_count(), 2);
}

#[test]
fn test_retry_epuise_max_tentatives() {
    let mut adapter = MockLlmAdapter::with_responses(vec![stop_response("invalide", 10)]);
    let result = call_with_retry(&mut adapter, &StrictDecoder, "sys", "usr", 2);
    assert!(result.is_err());
    // one initial attempt plus two retries: three calls
    assert_eq!(adapter.call_count(), 3);
}

#[test]
fn test_retry_troncature_arrete_immediatement() {
    // a length-limited response must not be retried
    let mut adapter = MockLlmAdapter::with_responses(vec![
        LlmResponse {
            content: "{\"value\": 1}".to_string(),
            tokens_used: 100,
            finish_reason: FinishReason::Length,
        },
        stop_response("{\"value\": 2}", 50),
    ]);
    let result = call_with_retry(&mut adapter, &ValueDecoder, "sys", "usr", 3);
    assert!(result.is_err());
    assert!(matches!(result.unwrap_err(), LlmRetryError::Truncated { .. }));
    // a single call, no retry after the truncation
    assert_eq!(adapter.call_count(), 1);
    // and not a single backoff sleep was requested
    assert_eq!(adapter.backoffs.len(), 0);
}

#[test]
fn test_retry_validation_fn_rejecte_puis_accepte() {
    let mut adapter = MockLlmAdapter::with_responses(vec![
        stop_response("{\"count\": 0}", 10),
        stop_response("{\"count\": 5}", 15),
    ]);
    let result = call_with_retry(&mut adapter, &CountDecoder, "sys", "usr", 2);
    assert!(result.is_ok(), "should succeed on the second attempt: {:?}", result.err());
    assert_eq!(result.unwrap()["count"], 5);
    assert_eq!(adapter.call_count(), 2);
}

#[test]
fn test_retry_validation_fn_rejette_toujours() {
    let mut adapter = MockLlmAdapter::with_responses(vec![stop_response("{\"count\": 0}", 10)]);
    let result = call_with_retry(&mut adapter, &AlwaysReject, "sys", "usr", 1);
    assert!(result.is_err());
    if let Err(LlmRetryError::Failed { details }) = result {
        assert!(
            details.contains("toujours rejete"),
            "the message must carry the rejection reason: {details}"
        );
    }
}

#[test]
fn test_retry_json_invalide_puis_valide() {
    // a fenced block around broken JSON, then clean JSON
    let mut adapter = MockLlmAdapter::with_responses(vec![
        stop_response("```json\nbroken json here\n```", 10),
        stop_response("{\"status\": \"ok\"}", 12),
    ]);
    let result = call_with_retry(&mut adapter, &ValueDecoder, "sys", "usr", 2);
    assert!(result.is_ok(), "should succeed: {:?}", result.err());
    assert_eq!(result.unwrap()["status"], "ok");
}

#[test]
fn test_retry_zero_max_retries() {
    // zero retries means a single attempt
    let mut adapter = MockLlmAdapter::with_responses(vec![stop_response("pas json", 10)]);
    let result = call_with_retry(&mut adapter, &StrictDecoder, "sys", "usr", 0);
    assert!(result.is_err());
    assert_eq!(adapter.call_count(), 1);
}

#[test]
fn test_mock_adapter_returns_responses() {
    let mut mock = MockLlmAdapter::new(vec!["response1".to_string(), "response2".to_string()]);
    let r1 = mock.generate_json("sys", "usr").unwrap();
    let r2 = mock.generate_json("sys", "usr").unwrap();
    assert_eq!(r1.content, "response1");
    assert_eq!(r2.content, "response2");
    assert_eq!(mock.call_count(), 2);
}

#[test]
fn test_mock_adapter_cycles_responses() {
    let mut mock = MockLlmAdapter::new(vec!["only".to_string()]);
    let r1 = mock.generate_json("a", "b").unwrap();
    let r2 = mock.generate_json("c", "d").unwrap();
    assert_eq!(r1.content, "only");
    assert_eq!(r2.content, "only");
}

#[test]
fn test_backoff_delay_capped() {
    assert_eq!(backoff_delay(1), 2);
    assert_eq!(backoff_delay(2), 4);
    assert_eq!(backoff_delay(3), 8);
    assert_eq!(backoff_delay(4), 16);
    assert_eq!(backoff_delay(5), 30);
    assert_eq!(backoff_delay(100), 30);
}

#[test]
fn test_retry_transition_truncation_is_terminal() {
    let next = retry_transition(RetryState::Attempting { attempt: 0 }, RetryEvent::Truncated, 3);
    assert_eq!(next, RetryState::CutShort);
}

#[test]
fn test_retry_transition_backoff_and_exhaustion() {
    let next =
        retry_transition(RetryState::Attempting { attempt: 0 }, RetryEvent::ParseFailure, 2);
    assert_eq!(next, RetryState::BackingOff { next_attempt: 1, delay_secs: 2 });
    let resumed = resume_after_backoff(next);
    assert_eq!(resumed, RetryState::Attempting { attempt: 1 });
    let done =
        retry_transition(RetryState::Attempting { attempt: 2 }, RetryEvent::PortFailure, 2);
    assert_eq!(done, RetryState::Exhausted);
    let accepted =
        retry_transition(RetryState::Attempting { attempt: 1 }, RetryEvent::OutputAccepted, 2);
    assert_eq!(accepted, RetryState::Accepted);
}

#[test]
fn test_retry_backoff_is_recorded() {
    let mut adapter = MockLlmAdapter::with_responses(vec![stop_response("pas json", 10)]);
    let _ = call_with_retry(&mut adapter, &StrictDecoder, "sys", "usr", 2);
    // two retries happened, each preceded by its exponential backoff
    assert_eq!(adapter.backoffs, vec![2, 4]);
}
