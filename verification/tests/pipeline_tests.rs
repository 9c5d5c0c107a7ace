use pdf_translator::batch::collect_batch;
use pdf_translator::batch::plan_batch;
use pdf_translator::document::plan_document;
use pdf_translator::document::DocElement;
use pdf_translator::errors::ExtractError;
use pdf_translator::errors::RenderError;
use pdf_translator::errors::TranslateError;
use pdf_translator::pipeline::on_extracted;
use pdf_translator::pipeline::on_rendered;
use pdf_translator::pipeline::on_translated;
use pdf_translator::pipeline::start_job;
use pdf_translator::pipeline::PipelineStage;
use pdf_translator::pipeline::TranslationJob;

fn job() -> TranslationJob {
    TranslationJob { input_path: "a.pdf".to_string(), output_path: "a_out.pdf".to_string() }
}

#[test]
fn successful_job_walks_all_three_stages() {
    let stage = start_job(job());
    let stage = on_extracted(stage, Ok("Hello\n\nWorld".to_string()));
    match &stage {
        PipelineStage::AwaitingTranslation { extracted, .. } => {
            assert_eq!(extracted, "Hello\n\nWorld");
        }
        other => panic!("unexpected stage: {:?}", other),
    }
    let stage = on_translated(stage, Ok("Bonjour\n\nMonde".to_string()));
    let translated = match &stage {
        PipelineStage::AwaitingRender { translated, .. } => translated.clone(),
        other => panic!("unexpected stage: {:?}", other),
    };
    assert_eq!(translated, "Bonjour\n\nMonde");
    let elements = plan_document(&translated);
    assert_eq!(
        elements,
        vec![
            DocElement::TextParagraph { text: "Bonjour".to_string() },
            DocElement::ParagraphBreak,
            DocElement::TextParagraph { text: "Monde".to_string() },
        ]
    );
    let stage = on_rendered(stage, Ok(()));
    assert_eq!(
        stage,
        PipelineStage::Complete { outcome: Ok("a_out.pdf".to_string()) }
    );
}

#[test]
fn one_document_batch_returns_its_output_path() {
    let inputs = vec!["a.pdf".to_string()];
    let outputs = vec!["a_out.pdf".to_string()];
    let jobs = plan_batch(&inputs, &outputs).unwrap();
    assert_eq!(jobs.len(), 1);
    let mut results: Vec<Result<String, String>> = Vec::new();
    for j in jobs {
        let stage = start_job(j);
        let stage = on_extracted(stage, Ok("Hello\n\nWorld".to_string()));
        let stage = on_translated(stage, Ok("Bonjour\n\nMonde".to_string()));
        let stage = on_rendered(stage, Ok(()));
        match stage {
            PipelineStage::Complete { outcome } => results.push(outcome),
            other => panic!("job did not complete: {:?}", other),
        }
    }
    assert_eq!(collect_batch(results), Ok(vec!["a_out.pdf".to_string()]));
}

#[test]
fn extraction_failure_completes_without_later_stages() {
    let stage = start_job(job());
    let stage = on_extracted(stage, Err(ExtractError { cause: "no such file".to_string() }));
    assert_eq!(
        stage,
        PipelineStage::Complete { outcome: Err("no such file".to_string()) }
    );
}

#[test]
fn translation_failure_completes_without_render() {
    let stage = start_job(job());
    let stage = on_extracted(stage, Ok("Hello".to_string()));
    let stage = on_translated(
        stage,
        Err(TranslateError::Network { cause: "connection refused".to_string() }),
    );
    assert_eq!(
        stage,
        PipelineStage::Complete { outcome: Err("connection refused".to_string()) }
    );
}

#[test]
fn parse_failure_completes_with_its_cause() {
    let stage = start_job(job());
    let stage = on_extracted(stage, Ok("Hello".to_string()));
    let stage = on_translated(
        stage,
        Err(TranslateError::ParseFailure { cause: "invalid JSON".to_string() }),
    );
    assert_eq!(
        stage,
        PipelineStage::Complete { outcome: Err("invalid JSON".to_string()) }
    );
}

#[test]
fn font_failure_message_names_the_font_problem() {
    let stage = start_job(job());
    let stage = on_extracted(stage, Ok("Hello".to_string()));
    let stage = on_translated(stage, Ok("Bonjour".to_string()));
    let stage = on_rendered(
        stage,
        Err(RenderError::FontLoad { cause: "missing file".to_string() }),
    );
    assert_eq!(
        stage,
        PipelineStage::Complete { outcome: Err("Error loading font: missing file".to_string()) }
    );
}

#[test]
fn write_failure_completes_with_its_cause() {
    let stage = start_job(job());
    let stage = on_extracted(stage, Ok("Hello".to_string()));
    let stage = on_translated(stage, Ok("Bonjour".to_string()));
    let stage = on_rendered(stage, Err(RenderError::Write { cause: "disk full".to_string() }));
    assert_eq!(
        stage,
        PipelineStage::Complete { outcome: Err("disk full".to_string()) }
    );
}
