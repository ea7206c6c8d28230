//! Typed errors of the pipeline, one enum per layer. Each carries its cause
//! as plain text and renders a human-readable message.

use vstd::prelude::*;
use vstd::string::*;

use crate::textutil::{push_u64_digits, spec_digits};

verus! {

/// Mathematical model of an `InputError`.
pub enum InputErrorView {
    FileNotFound { path: Seq<char> },
    InvalidFormat { details: Seq<char> },
    NoStoriesFound,
    ReadError(Seq<char>),
    ParseError(Seq<char>),
}

/// Failure while reading the input files.
#[derive(Debug)]
pub enum InputError {
    FileNotFound { path: String },
    InvalidFormat { details: String },
    NoStoriesFound,
    ReadError(String),
    ParseError(String),
}

impl DeepView for InputError {
    type V = InputErrorView;

    open spec fn deep_view(&self) -> InputErrorView {
        match self {
            InputError::FileNotFound { path } => InputErrorView::FileNotFound { path: path@ },
            InputError::InvalidFormat { details } => InputErrorView::InvalidFormat {
                details: details@,
            },
            InputError::NoStoriesFound => InputErrorView::NoStoriesFound,
            InputError::ReadError(s) => InputErrorView::ReadError(s@),
            InputError::ParseError(s) => InputErrorView::ParseError(s@),
        }
    }
}

pub open spec fn spec_input_error_message(e: InputErrorView) -> Seq<char> {
    match e {
        InputErrorView::FileNotFound { path } => "Fichier non trouve: "@ + path,
        InputErrorView::InvalidFormat { details } => "Format invalide: "@ + details,
        InputErrorView::NoStoriesFound => "Aucune user story trouvee dans l'entree"@,
        InputErrorView::ReadError(s) => "Erreur de lecture: "@ + s,
        InputErrorView::ParseError(s) => "Erreur de parsing: "@ + s,
    }
}

impl InputError {
    /// Human-readable message, as the error is reported to the user.
    pub fn message(&self) -> (r: String)
        ensures
            r@ == spec_input_error_message(self.deep_view()),
    {
        let mut s = String::new();
        match self {
            InputError::FileNotFound { path } => {
                s.append("Fichier non trouve: ");
                s.append(path.as_str());
            },
            InputError::InvalidFormat { details } => {
                s.append("Format invalide: ");
                s.append(details.as_str());
            },
            InputError::NoStoriesFound => {
                s.append("Aucune user story trouvee dans l'entree");
            },
            InputError::ReadError(d) => {
                s.append("Erreur de lecture: ");
                s.append(d.as_str());
            },
            InputError::ParseError(d) => {
                s.append("Erreur de parsing: ");
                s.append(d.as_str());
            },
        }
        proof {
            assert(s@ =~= spec_input_error_message(self.deep_view()));
        }
        s
    }
}

/// Mathematical model of a `RefinementError`.
pub enum RefinementErrorView {
    LlmFailed { details: Seq<char> },
    OutputParseFailed { details: Seq<char> },
    IncompleteSpec { missing_sections: Seq<Seq<char>> },
    OutputTruncated { details: Seq<char> },
}

/// Failure while refining user stories into a specification.
#[derive(Debug)]
pub enum RefinementError {
    LlmFailed { details: String },
    OutputParseFailed { details: String },
    IncompleteSpec { missing_sections: Vec<String> },
    OutputTruncated { details: String },
}

impl DeepView for RefinementError {
    type V = RefinementErrorView;

    open spec fn deep_view(&self) -> RefinementErrorView {
        match self {
            RefinementError::LlmFailed { details } => RefinementErrorView::LlmFailed {
                details: details@,
            },
            RefinementError::OutputParseFailed { details } => RefinementErrorView::OutputParseFailed {
                details: details@,
            },
            RefinementError::IncompleteSpec { missing_sections } => RefinementErrorView::IncompleteSpec {
                missing_sections: missing_sections.deep_view(),
            },
            RefinementError::OutputTruncated { details } => RefinementErrorView::OutputTruncated {
                details: details@,
            },
        }
    }
}

/// Mathematical model of a `GenerationError`.
pub enum GenerationErrorView {
    GherkinFailed { details: Seq<char> },
    InvalidGherkinSyntax { line: usize, message: Seq<char> },
    SpecNotRefined,
    OutputTruncated { details: Seq<char> },
}

/// Failure while generating test cases from a specification.
#[derive(Debug)]
pub enum GenerationError {
    GherkinFailed { details: String },
    InvalidGherkinSyntax { line: usize, message: String },
    SpecNotRefined,
    OutputTruncated { details: String },
}

impl DeepView for GenerationError {
    type V = GenerationErrorView;

    open spec fn deep_view(&self) -> GenerationErrorView {
        match self {
            GenerationError::GherkinFailed { details } => GenerationErrorView::GherkinFailed {
                details: details@,
            },
            GenerationError::InvalidGherkinSyntax { line, message } => GenerationErrorView::InvalidGherkinSyntax {
                line: *line,
                message: message@,
            },
            GenerationError::SpecNotRefined => GenerationErrorView::SpecNotRefined,
            GenerationError::OutputTruncated { details } => GenerationErrorView::OutputTruncated {
                details: details@,
            },
        }
    }
}

/// Mathematical model of an `LlmRetryError`.
pub enum LlmRetryErrorView {
    Truncated { details: Seq<char> },
    Failed { details: Seq<char> },
}

/// Terminal outcome of a retried generation exchange: the response was cut
/// short, or every attempt failed.
#[derive(Debug)]
pub enum LlmRetryError {
    /// The response hit the size limit; never retried at this level.
    Truncated { details: String },
    /// All attempts exhausted; carries the last recorded cause.
    Failed { details: String },
}

impl DeepView for LlmRetryError {
    type V = LlmRetryErrorView;

    open spec fn deep_view(&self) -> LlmRetryErrorView {
        match self {
            LlmRetryError::Truncated { details } => LlmRetryErrorView::Truncated {
                details: details@,
            },
            LlmRetryError::Failed { details } => LlmRetryErrorView::Failed { details: details@ },
        }
    }
}

pub open spec fn spec_retry_error_message(e: LlmRetryErrorView) -> Seq<char> {
    match e {
        LlmRetryErrorView::Truncated { details } => "Sortie LLM tronquee (max_tokens atteint): "@
            + details,
        LlmRetryErrorView::Failed { details } => "Echec apres retries: "@ + details,
    }
}

impl LlmRetryError {
    /// Human-readable message, as the error is reported to the user.
    pub fn message(&self) -> (r: String)
        ensures
            r@ == spec_retry_error_message(self.deep_view()),
    {
        let mut s = String::new();
        match self {
            LlmRetryError::Truncated { details } => {
                s.append("Sortie LLM tronquee (max_tokens atteint): ");
                s.append(details.as_str());
            },
            LlmRetryError::Failed { details } => {
                s.append("Echec apres retries: ");
                s.append(details.as_str());
            },
        }
        proof {
            assert(s@ =~= spec_retry_error_message(self.deep_view()));
        }
        s
    }
}

/// Mathematical model of an `LlmError`.
pub enum LlmErrorView {
    ConnectionError(Seq<char>),
    ApiError { status_code: u16, message: Seq<char> },
    ParseError(Seq<char>),
    Timeout(u64),
    ModelNotFound(Seq<char>),
    Disabled,
    ConfigError(Seq<char>),
}

/// Failure of the generative-text port itself.
#[derive(Debug)]
pub enum LlmError {
    ConnectionError(String),
    ApiError { status_code: u16, message: String },
    ParseError(String),
    Timeout(u64),
    ModelNotFound(String),
    Disabled,
    ConfigError(String),
}

impl DeepView for LlmError {
    type V = LlmErrorView;

    open spec fn deep_view(&self) -> LlmErrorView {
        match self {
            LlmError::ConnectionError(s) => LlmErrorView::ConnectionError(s@),
            LlmError::ApiError { status_code, message } => LlmErrorView::ApiError {
                status_code: *status_code,
                message: message@,
            },
            LlmError::ParseError(s) => LlmErrorView::ParseError(s@),
            LlmError::Timeout(t) => LlmErrorView::Timeout(*t),
            LlmError::ModelNotFound(s) => LlmErrorView::ModelNotFound(s@),
            LlmError::Disabled => LlmErrorView::Disabled,
            LlmError::ConfigError(s) => LlmErrorView::ConfigError(s@),
        }
    }
}

pub open spec fn spec_llm_error_message(e: LlmErrorView) -> Seq<char> {
    match e {
        LlmErrorView::ConnectionError(s) => "Echec de connexion: "@ + s,
        LlmErrorView::ApiError { status_code, message } => "Erreur API ("@ + spec_digits(
            status_code as nat,
        ) + "): "@ + message,
        LlmErrorView::ParseError(s) => "Erreur de parsing JSON: "@ + s,
        LlmErrorView::Timeout(t) => "Timeout apres "@ + spec_digits(t as nat) + "s"@,
        LlmErrorView::ModelNotFound(s) => "Modele non trouve: "@ + s,
        LlmErrorView::Disabled => "Service desactive"@,
        LlmErrorView::ConfigError(s) => "Erreur de configuration: "@ + s,
    }
}

impl LlmError {
    /// Human-readable message, as the error is reported to the user.
    pub fn message(&self) -> (r: String)
        ensures
            r@ == spec_llm_error_message(self.deep_view()),
    {
        let mut v: Vec<char> = Vec::new();
        let mut s = String::new();
        match self {
            LlmError::ConnectionError(d) => {
                s.append("Echec de connexion: ");
                s.append(d.as_str());
            },
            LlmError::ApiError { status_code, message } => {
                s.append("Erreur API (");
                push_u64_digits(*status_code as u64, &mut v);
                let digits = crate::textutil::chars_to_string(&v);
                s.append(digits.as_str());
                s.append("): ");
                s.append(message.as_str());
            },
            LlmError::ParseError(d) => {
                s.append("Erreur de parsing JSON: ");
                s.append(d.as_str());
            },
            LlmError::Timeout(t) => {
                s.append("Timeout apres ");
                push_u64_digits(*t, &mut v);
                let digits = crate::textutil::chars_to_string(&v);
                s.append(digits.as_str());
                s.append("s");
            },
            LlmError::ModelNotFound(d) => {
                s.append("Modele non trouve: ");
                s.append(d.as_str());
            },
            LlmError::Disabled => {
                s.append("Service desactive");
            },
            LlmError::ConfigError(d) => {
                s.append("Erreur de configuration: ");
                s.append(d.as_str());
            },
        }
        proof {
            assert(s@ =~= spec_llm_error_message(self.deep_view()));
        }
        s
    }
}

} // verus!
