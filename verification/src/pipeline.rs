//! The stages of the image pipeline and the order in which they run.
//!
//! The stages themselves read, transform and write images, which is the caller's work.
//! What is decided here is what the import stage is told to do, which stage follows
//! which, and how a failure ends the run.

use crate::config::Config;
use crate::options::{RawOptions, RawOptionsView};
use crate::resolve::{first_present, first_some};
use vstd::prelude::*;

verus! {

/// What the import stage says before it decodes, when no output path is set.
pub const DEFAULT_OUTPUT_FORMAT_ADVISORY: &'static str =
    "The default output format is BMP. Use --output-format <FORMAT> to specify a different output format.";

/// A stage of the image pipeline.
#[derive(Debug, Clone, Copy, PartialEq, Eq, Structural)]
pub enum Stage {
    /// Decode the input into an image buffer.
    Import,
    /// Apply the operations to the buffer.
    Transform,
    /// Decide the format to encode the buffer in.
    EncodeDecide,
    /// Encode the buffer and write it out.
    Export,
}

/// Where a run of the image pipeline stands.
#[derive(Debug, PartialEq, Eq)]
pub enum PipelineState {
    /// The stage is the next to run.
    At(Stage),
    /// Every stage has run.
    Succeeded,
    /// A stage failed with the message; no stage runs after it.
    Failed(String),
}

/// What the import stage is told to do: what to say first, and where to read from.
#[derive(Debug, PartialEq, Eq)]
pub struct ImportPlan {
    /// What to say, as a diagnostic, before decoding.
    pub advisory: Option<&'static str>,
    /// The path to read the image from; without one it is read from the standard input.
    pub input: Option<String>,
}

impl Stage {
    /// The place of the stage in the pipeline, counted from 0.
    pub open spec fn rank(self) -> nat {
        match self {
            Stage::Import => 0,
            Stage::Transform => 1,
            Stage::EncodeDecide => 2,
            Stage::Export => 3,
        }
    }
}

/// The candidates for the input path, in order of precedence: the input path option
/// itself, then the front-end's own input path option.
pub open spec fn input_candidates(options: RawOptionsView) -> Seq<Option<Seq<char>>> {
    seq![options.input, options.input_file]
}

/// Where a run stands once `stage` has ended with `outcome`: at the stage that follows,
/// at the end after the last stage, or failed with the stage's own message.
pub open spec fn state_after(stage: Stage, outcome: Result<(), String>) -> PipelineState {
    match outcome {
        Err(message) => PipelineState::Failed(message),
        Ok(_) => match stage {
            Stage::Import => PipelineState::At(Stage::Transform),
            Stage::Transform => PipelineState::At(Stage::EncodeDecide),
            Stage::EncodeDecide => PipelineState::At(Stage::Export),
            Stage::Export => PipelineState::Succeeded,
        },
    }
}

/// Where every run starts: at the import stage.
pub fn start() -> (state: PipelineState)
    ensures
        state == PipelineState::At(Stage::Import),
{
    PipelineState::At(Stage::Import)
}

/// Where the run stands once `stage` has ended with `outcome`.
pub fn advance(stage: Stage, outcome: Result<(), String>) -> (state: PipelineState)
    ensures
        state == state_after(stage, outcome),
{
    match outcome {
        Err(message) => PipelineState::Failed(message),
        Ok(_) => match stage {
            Stage::Import => PipelineState::At(Stage::Transform),
            Stage::Transform => PipelineState::At(Stage::EncodeDecide),
            Stage::EncodeDecide => PipelineState::At(Stage::Export),
            Stage::Export => PipelineState::Succeeded,
        },
    }
}

/// What the import stage is told to do. Before decoding it says that the default output
/// format will be used exactly if the configuration has no output path. It reads from the
/// input path option, else from the front-end's own, else from the standard input.
pub fn plan_import(options: &RawOptions, config: &Config) -> (plan: ImportPlan)
    ensures
        plan.advisory.deep_view() == if config@.output is None {
            Some(DEFAULT_OUTPUT_FORMAT_ADVISORY@)
        } else {
            None
        },
        plan.input.deep_view() == first_some(input_candidates(options@)),
{
    let advisory = if config.output.is_none() {
        Some(DEFAULT_OUTPUT_FORMAT_ADVISORY)
    } else {
        None
    };
    let candidates = vec![&options.input, &options.input_file];
    assert(candidates.deep_view() =~= input_candidates(options@));
    ImportPlan { advisory, input: first_present(&candidates) }
}

/// The stages run strictly in order: a stage that succeeds hands over to the stage of
/// the next rank, the last one ends the run, and a stage that fails ends it with its
/// own message, whichever stage it is.
pub proof fn lemma_stages_run_in_order(stage: Stage, outcome: Result<(), String>)
    ensures
        match state_after(stage, outcome) {
            PipelineState::At(next) => outcome is Ok && next.rank() == stage.rank() + 1,
            PipelineState::Succeeded => outcome is Ok && stage == Stage::Export,
            PipelineState::Failed(message) => outcome == Err::<(), String>(message),
        },
{
}

} // verus!
