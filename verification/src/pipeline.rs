//! The per-document pipeline.
//!
//! One job runs strictly in stage order: extract, then translate, then
//! render. The outside work of each stage is done by the embedding
//! application; this module holds the decisions between the stages. Each
//! transition takes the stage a job waits in and the outcome of that stage's
//! work, and yields the stage that follows: the next stage on success, or the
//! completed state carrying the failed stage's message. A failed stage
//! therefore short-circuits every later stage of that job, and no transition
//! leaves the completed state.

use vstd::prelude::*;
use crate::errors::ExtractError;
use crate::errors::RenderError;
use crate::errors::TranslateError;

verus! {

/// One document to translate: where to read it and where to write the result.
#[derive(Debug, PartialEq)]
pub struct TranslationJob {
    pub input_path: String,
    pub output_path: String,
}

/// Where one job stands between stages.
#[derive(Debug, PartialEq)]
pub enum PipelineStage {
    /// The job waits for the text of its input document.
    AwaitingExtraction { job: TranslationJob },
    /// Extraction succeeded; the job waits for `extracted` to be translated.
    AwaitingTranslation { job: TranslationJob, extracted: String },
    /// Translation succeeded; the job waits for `translated` to be rendered
    /// to the job's output path.
    AwaitingRender { job: TranslationJob, translated: String },
    /// The job is finished: its output path on success, or the message of the
    /// stage that failed.
    Complete { outcome: Result<String, String> },
}

/// Starts one job: the first work it waits for is the extraction of its
/// input document.
pub fn start_job(job: TranslationJob) -> (stage: PipelineStage)
    ensures
        stage matches PipelineStage::AwaitingExtraction { job: j } && j == job,
{
    PipelineStage::AwaitingExtraction { job }
}

/// Advances a job past the extraction stage. On success the job waits for the
/// translation of exactly the extracted text; on failure the job completes
/// with the extraction error's message, so neither translation nor rendering
/// is ever requested for it.
pub fn on_extracted(stage: PipelineStage, outcome: Result<String, ExtractError>) -> (next:
    PipelineStage)
    requires
        stage is AwaitingExtraction,
    ensures
        outcome matches Ok(text) ==> (next matches PipelineStage::AwaitingTranslation {
            job,
            extracted,
        } && job == stage->AwaitingExtraction_job && extracted == text),
        outcome matches Err(e) ==> (next matches PipelineStage::Complete { outcome: o }
            && o matches Err(m) && m@ == e.spec_message()),
{
    match stage {
        PipelineStage::AwaitingExtraction { job } => match outcome {
            Ok(text) => PipelineStage::AwaitingTranslation { job, extracted: text },
            Err(e) => PipelineStage::Complete { outcome: Err(e.message()) },
        },
        _ => unreached(),
    }
}

/// Advances a job past the translation stage. On success the job waits for
/// exactly the translated text to be rendered; on failure the job completes
/// with the translation error's message, and rendering is never requested, so
/// no output file is touched for it.
pub fn on_translated(stage: PipelineStage, outcome: Result<String, TranslateError>) -> (next:
    PipelineStage)
    requires
        stage is AwaitingTranslation,
    ensures
        outcome matches Ok(text) ==> (next matches PipelineStage::AwaitingRender {
            job,
            translated,
        } && job == stage->AwaitingTranslation_job && translated == text),
        outcome matches Err(e) ==> (next matches PipelineStage::Complete { outcome: o }
            && o matches Err(m) && m@ == e.spec_message()),
{
    match stage {
        PipelineStage::AwaitingTranslation { job, extracted: _ } => match outcome {
            Ok(text) => PipelineStage::AwaitingRender { job, translated: text },
            Err(e) => PipelineStage::Complete { outcome: Err(e.message()) },
        },
        _ => unreached(),
    }
}

/// Completes a job after the render stage: its output path on success, or the
/// render error's message on failure.
pub fn on_rendered(stage: PipelineStage, outcome: Result<(), RenderError>) -> (next: PipelineStage)
    requires
        stage is AwaitingRender,
    ensures
        outcome is Ok ==> (next matches PipelineStage::Complete { outcome: o } && o matches Ok(
            path,
        ) && path == stage->AwaitingRender_job.output_path),
        outcome matches Err(e) ==> (next matches PipelineStage::Complete { outcome: o }
            && o matches Err(m) && m@ == e.spec_message()),
{
    match stage {
        PipelineStage::AwaitingRender { job, translated: _ } => match outcome {
            Ok(_) => PipelineStage::Complete { outcome: Ok(job.output_path) },
            Err(e) => PipelineStage::Complete { outcome: Err(e.message()) },
        },
        _ => unreached(),
    }
}

} // verus!
