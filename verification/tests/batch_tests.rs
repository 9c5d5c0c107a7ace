use pdf_translator::batch::collect_batch;
use pdf_translator::batch::plan_batch;
use pdf_translator::batch::validation_message;

const VALIDATION: &str = "Le nombre de chemins d'entrée et de sortie doit être identique.";

#[test]
fn mismatched_lengths_rejected() {
    let inputs = vec!["a.pdf".to_string(), "b.pdf".to_string()];
    let outputs = vec!["a_out.pdf".to_string()];
    let r = plan_batch(&inputs, &outputs);
    assert_eq!(r, Err(VALIDATION.to_string()));
}

#[test]
fn empty_against_nonempty_rejected() {
    let inputs: Vec<String> = vec![];
    let outputs = vec!["a_out.pdf".to_string()];
    let r = plan_batch(&inputs, &outputs);
    assert_eq!(r, Err(VALIDATION.to_string()));
}

#[test]
fn validation_message_is_fixed() {
    assert_eq!(validation_message(), VALIDATION.to_string());
}

#[test]
fn equal_lengths_paired_in_order() {
    let inputs = vec!["a.pdf".to_string(), "b.pdf".to_string()];
    let outputs = vec!["a_out.pdf".to_string(), "b_out.pdf".to_string()];
    let jobs = plan_batch(&inputs, &outputs).unwrap();
    assert_eq!(jobs.len(), 2);
    assert_eq!(jobs[0].input_path, "a.pdf");
    assert_eq!(jobs[0].output_path, "a_out.pdf");
    assert_eq!(jobs[1].input_path, "b.pdf");
    assert_eq!(jobs[1].output_path, "b_out.pdf");
}

#[test]
fn empty_batch_yields_no_jobs() {
    let inputs: Vec<String> = vec![];
    let outputs: Vec<String> = vec![];
    let jobs = plan_batch(&inputs, &outputs).unwrap();
    assert!(jobs.is_empty());
}

#[test]
fn all_successes_collected_in_order() {
    let results = vec![
        Ok("first.pdf".to_string()),
        Ok("second.pdf".to_string()),
        Ok("third.pdf".to_string()),
    ];
    let r = collect_batch(results);
    assert_eq!(
        r,
        Ok(vec![
            "first.pdf".to_string(),
            "second.pdf".to_string(),
            "third.pdf".to_string(),
        ])
    );
}

#[test]
fn single_failure_discards_successes() {
    let results = vec![
        Ok("first.pdf".to_string()),
        Err("broken document".to_string()),
        Ok("third.pdf".to_string()),
    ];
    let r = collect_batch(results);
    assert_eq!(r, Err("broken document".to_string()));
}

#[test]
fn earliest_failure_wins() {
    let results = vec![
        Ok("first.pdf".to_string()),
        Err("first failure".to_string()),
        Err("second failure".to_string()),
    ];
    let r = collect_batch(results);
    assert_eq!(r, Err("first failure".to_string()));
}

#[test]
fn empty_results_collect_to_empty() {
    let results: Vec<Result<String, String>> = vec![];
    assert_eq!(collect_batch(results), Ok(vec![]));
}
