//! Batch orchestration, recovery, merge and traceability engine for turning
//! loosely structured requirement documents into a cross-referenced artifact
//! set with a coverage report.

pub mod config;
pub mod dup;
pub mod errors;
pub mod executor;
pub mod generate;
pub mod idmap;
pub mod ids;
pub mod language;
pub mod lexicon;
pub mod llm_checks;
pub mod llm_output;
pub mod merge;
pub mod metrics;
pub mod parse;
pub mod pipeline_stage;
pub mod planner;
pub mod readers;
pub mod refine;
pub mod sanitize;
pub mod specification;
pub mod story;
pub mod test_case;
pub mod textutil;
pub mod traceability;
pub mod wellformed;
