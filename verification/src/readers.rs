//! Reader front-ends for the supported input formats. The engine only holds
//! their language detection; the actual file parsing and I/O live with the
//! caller, outside the verified core.

use vstd::prelude::*;

use crate::language::{detect_language, spec_detect_language};
use crate::story::Language;
use crate::textutil::{contains_sub, spec_contains, to_chars};

verus! {

/// Reads user stories from Markdown text.
pub struct MarkdownReader;

impl MarkdownReader {
    pub fn new() -> (r: Self) {
        MarkdownReader
    }

    pub fn detect_language(&self, content: &str) -> (r: Language)
        ensures
            r == spec_detect_language(content@),
    {
        detect_language(content)
    }
}

impl Default for MarkdownReader {
    fn default() -> (r: Self) {
        MarkdownReader::new()
    }
}

/// Reads user stories from text extracted out of a PDF document.
pub struct PdfReader;

impl PdfReader {
    pub fn new() -> (r: Self) {
        PdfReader
    }

    pub fn detect_language(&self, content: &str) -> (r: Language)
        ensures
            r == spec_detect_language(content@),
    {
        detect_language(content)
    }
}

impl Default for PdfReader {
    fn default() -> (r: Self) {
        PdfReader::new()
    }
}

/// Reads user stories from text extracted out of a DOCX document.
pub struct DocxReader;

impl DocxReader {
    pub fn new() -> (r: Self) {
        DocxReader
    }

    pub fn detect_language(&self, content: &str) -> (r: Language)
        ensures
            r == spec_detect_language(content@),
    {
        detect_language(content)
    }
}

impl Default for DocxReader {
    fn default() -> (r: Self) {
        DocxReader::new()
    }
}

/// The language a structured YAML input declares.
pub open spec fn spec_yaml_language(content: Seq<char>) -> Language {
    if spec_contains(content, "language: en"@) || spec_contains(content, "language: EN"@) {
        Language::English
    } else {
        Language::French
    }
}

/// Reads user stories from structured YAML.
pub struct YamlReader;

impl YamlReader {
    pub fn new() -> (r: Self) {
        YamlReader
    }

    pub fn detect_language(&self, content: &str) -> (r: Language)
        ensures
            r == spec_yaml_language(content@),
    {
        let v = to_chars(content);
        if contains_sub(&v, &to_chars("language: en")) || contains_sub(
            &v,
            &to_chars("language: EN"),
        ) {
            Language::English
        } else {
            Language::French
        }
    }
}

impl Default for YamlReader {
    fn default() -> (r: Self) {
        YamlReader::new()
    }
}

} // verus!
