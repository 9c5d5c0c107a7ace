//! The batch orchestrator's decisions.
//!
//! A batch is given as two parallel path lists. [`plan_batch`] validates them
//! and pairs them into jobs; the embedding application then runs one
//! per-document pipeline per job, concurrently, and hands the results back in
//! the original job order to [`collect_batch`], which applies the aggregation
//! policy: the first failing job's message wins and every other result is
//! discarded; only a batch whose jobs all succeeded yields the ordered output
//! paths.

use vstd::prelude::*;
use crate::pipeline::TranslationJob;

verus! {

/// The fixed message with which a mismatched batch is rejected.
pub open spec fn spec_validation_message() -> Seq<char> {
    "Le nombre de chemins d'entrée et de sortie doit être identique."@
}

pub fn validation_message() -> (m: String)
    ensures
        m@ == spec_validation_message(),
{
    String::from_str("Le nombre de chemins d'entrée et de sortie doit être identique.")
}

/// Validates a batch and pairs its path lists into jobs.
///
/// Lists of unequal length are rejected with the fixed validation message
/// before any job exists, so no stage's work is ever started for such a batch.
/// Lists of equal length are paired positionally, in the order given.
pub fn plan_batch(input_paths: &Vec<String>, output_paths: &Vec<String>) -> (r: Result<
    Vec<TranslationJob>,
    String,
>)
    ensures
        input_paths@.len() != output_paths@.len() ==> (r matches Err(m) && m@
            == spec_validation_message()),
        input_paths@.len() == output_paths@.len() ==> (r matches Ok(jobs) && jobs@.len()
            == input_paths@.len() && (forall|i: int|
            0 <= i < jobs@.len() ==> jobs@[i].input_path@ == input_paths@[i]@
                && jobs@[i].output_path@ == output_paths@[i]@)),
{
    if input_paths.len() != output_paths.len() {
        return Err(validation_message());
    }
    let mut jobs: Vec<TranslationJob> = Vec::new();
    let mut i: usize = 0;
    while i < input_paths.len()
        invariant
            input_paths@.len() == output_paths@.len(),
            i <= input_paths@.len(),
            jobs@.len() == i,
            forall|k: int|
                0 <= k < i ==> jobs@[k].input_path@ == input_paths@[k]@ && jobs@[k].output_path@
                    == output_paths@[k]@,
        decreases input_paths@.len() - i,
    {
        jobs.push(
            TranslationJob {
                input_path: input_paths[i].clone(),
                output_path: output_paths[i].clone(),
            },
        );
        i += 1;
    }
    Ok(jobs)
}

/// Whether every job of the batch succeeded.
pub open spec fn batch_all_ok(results: Seq<Result<String, String>>) -> bool {
    forall|i: int| 0 <= i < results.len() ==> results[i] is Ok
}

/// The message of the first failed job, in original job order.
pub open spec fn spec_first_error(results: Seq<Result<String, String>>) -> Seq<char>
    decreases results.len(),
{
    if results.len() == 0 {
        Seq::empty()
    } else if results[0] is Err {
        results[0]->Err_0@
    } else {
        spec_first_error(results.drop_first())
    }
}

/// The first error is the one at the earliest failing position: if every job
/// before position `k` succeeded and the job at `k` failed, the batch's error
/// is that job's message.
pub proof fn lemma_first_error_at(results: Seq<Result<String, String>>, k: int)
    requires
        0 <= k < results.len(),
        results[k] is Err,
        forall|j: int| 0 <= j < k ==> results[j] is Ok,
    ensures
        !batch_all_ok(results),
        spec_first_error(results) == results[k]->Err_0@,
    decreases k,
{
    if k > 0 {
        lemma_first_error_at(results.drop_first(), k - 1);
    }
}

/// First failure wins: in a batch where exactly one job failed, the batch's
/// result is that job's message, however many of the other jobs succeeded.
pub proof fn lemma_single_failure_wins(results: Seq<Result<String, String>>, k: int)
    requires
        0 <= k < results.len(),
        results[k] is Err,
        forall|j: int| 0 <= j < results.len() && j != k ==> results[j] is Ok,
    ensures
        !batch_all_ok(results),
        spec_first_error(results) == results[k]->Err_0@,
{
    lemma_first_error_at(results, k);
}

/// Aggregates the per-job results, in original job order.
///
/// If every job succeeded, the result is the jobs' output paths, in the same
/// order. Otherwise the result is the first failed job's message, and every
/// other result, successes included, is discarded. This coarse policy is
/// deliberate.
pub fn collect_batch(results: Vec<Result<String, String>>) -> (r: Result<Vec<String>, String>)
    ensures
        batch_all_ok(results@) ==> (r matches Ok(outputs) && outputs@.len() == results@.len() && (
        forall|i: int| 0 <= i < outputs@.len() ==> outputs@[i]@ == results@[i]->Ok_0@)),
        !batch_all_ok(results@) ==> (r matches Err(m) && m@ == spec_first_error(results@)),
{
    let mut outputs: Vec<String> = Vec::new();
    let mut i: usize = 0;
    while i < results.len()
        invariant
            i <= results@.len(),
            outputs@.len() == i,
            forall|k: int| 0 <= k < i ==> results@[k] is Ok,
            forall|k: int| 0 <= k < i ==> outputs@[k]@ == results@[k]->Ok_0@,
        decreases results@.len() - i,
    {
        match &results[i] {
            Ok(output) => {
                outputs.push(output.clone());
            },
            Err(message) => {
                proof {
                    lemma_first_error_at(results@, i as int);
                }
                return Err(message.clone());
            },
        }
        i += 1;
    }
    Ok(outputs)
}

} // verus!
