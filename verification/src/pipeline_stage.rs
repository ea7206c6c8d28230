//! The stages of one pipeline run, named for progress reports and error
//! messages.

use vstd::prelude::*;

verus! {

/// One stage of a pipeline run.
#[derive(Clone, Copy, Debug, PartialEq, Eq, Structural)]
pub enum PipelineStage {
    ReadingInput,
    RefiningSpec,
    GeneratingTests,
    WritingOutput,
}

impl DeepView for PipelineStage {
    type V = PipelineStage;

    open spec fn deep_view(&self) -> PipelineStage {
        *self
    }
}

impl PipelineStage {
    /// Human-readable name of the stage.
    pub fn label(&self) -> (r: &'static str)
        ensures
            *self == PipelineStage::ReadingInput ==> r@ == "Lecture du fichier"@,
            *self == PipelineStage::RefiningSpec ==> r@ == "Raffinement LLM"@,
            *self == PipelineStage::GeneratingTests ==> r@ == "Generation des tests"@,
            *self == PipelineStage::WritingOutput ==> r@ == "Ecriture des sorties"@,
    {
        match self {
            PipelineStage::ReadingInput => "Lecture du fichier",
            PipelineStage::RefiningSpec => "Raffinement LLM",
            PipelineStage::GeneratingTests => "Generation des tests",
            PipelineStage::WritingOutput => "Ecriture des sorties",
        }
    }
}

} // verus!
