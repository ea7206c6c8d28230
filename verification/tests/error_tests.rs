use spec_forge::errors::{InputError, LlmError, LlmRetryError};

#[test]
fn test_input_error_messages() {
    assert_eq!(
        InputError::InvalidFormat { details: "bad".to_string() }.message(),
        "Format invalide: bad"
    );
    assert_eq!(
        InputError::NoStoriesFound.message(),
        "Aucune user story trouvee dans l'entree"
    );
    assert_eq!(InputError::ReadError("io".to_string()).message(), "Erreur de lecture: io");
    assert_eq!(InputError::ParseError("p".to_string()).message(), "Erreur de parsing: p");
}

#[test]
fn test_retry_error_messages() {
    assert_eq!(
        LlmRetryError::Truncated { details: "coupe".to_string() }.message(),
        "Sortie LLM tronquee (max_tokens atteint): coupe"
    );
    assert_eq!(
        LlmRetryError::Failed { details: "cause".to_string() }.message(),
        "Echec apres retries: cause"
    );
}

#[test]
fn test_llm_error_messages() {
    assert_eq!(
        LlmError::ConnectionError("refused".to_string()).message(),
        "Echec de connexion: refused"
    );
    assert_eq!(
        LlmError::ApiError { status_code: 404, message: "not found".to_string() }.message(),
        "Erreur API (404): not found"
    );
    assert_eq!(
        LlmError::ParseError("json".to_string()).message(),
        "Erreur de parsing JSON: json"
    );
    assert_eq!(LlmError::Timeout(300).message(), "Timeout apres 300s");
    assert_eq!(
        LlmError::ModelNotFound("m".to_string()).message(),
        "Modele non trouve: m"
    );
    assert_eq!(LlmError::Disabled.message(), "Service desactive");
    assert_eq!(
        LlmError::ConfigError("c".to_string()).message(),
        "Erreur de configuration: c"
    );
}
