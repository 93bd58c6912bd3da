//! The batch entry point: the size policy, the parallel run, and the
//! summary derived from the verdicts.

use vstd::prelude::*;
use vstd::string::StringExecFns;
use crate::error::AppError;
use crate::ext;
use crate::models::{EmailSignature, ValidationResult};
use crate::text::{decimal_digits, format_usize};
use crate::validator::{outcome_matches, SignatureValidator};

verus! {

/// Aggregate over one batch's verdicts. Derived from them, never persisted.
#[derive(Debug, Clone)]
pub struct BatchSummary {
    pub total: usize,
    pub valid: usize,
    pub invalid: usize,
    pub processing_time_ms: u128,
}

/// A batch's verdicts together with their summary.
#[derive(Debug, Clone)]
pub struct BatchValidateResponse {
    pub results: Vec<ValidationResult>,
    pub summary: BatchSummary,
}

/// How many of the verdicts are valid.
pub open spec fn count_valid(rs: Seq<ValidationResult>) -> int
    decreases rs.len(),
{
    if rs.len() == 0 {
        0
    } else {
        count_valid(rs.drop_last()) + if rs.last().valid {
            1int
        } else {
            0int
        }
    }
}

proof fn lemma_count_valid_bounds(rs: Seq<ValidationResult>)
    ensures
        0 <= count_valid(rs) <= rs.len(),
    decreases rs.len(),
{
    if rs.len() > 0 {
        lemma_count_valid_bounds(rs.drop_last());
    }
}

/// Counts the valid verdicts.
fn count_valid_results(rs: &Vec<ValidationResult>) -> (c: usize)
    ensures
        c == count_valid(rs@),
{
    let n = rs.len();
    let mut c: usize = 0;
    let mut i: usize = 0;
    while i < n
        invariant
            i <= n,
            n == rs@.len(),
            c == count_valid(rs@.take(i as int)),
            c <= i,
        decreases n - i,
    {
        proof {
            assert(rs@.take(i as int + 1).drop_last() =~= rs@.take(i as int));
            assert(rs@.take(i as int + 1).last() == rs@[i as int]);
        }
        if rs[i].valid {
            c += 1;
        }
        i += 1;
    }
    proof {
        assert(rs@.take(n as int) =~= rs@);
    }
    c
}

/// Builds the summary for a batch's verdicts: the counts always agree,
/// `total == valid + invalid`, and `total` is the number of verdicts.
pub fn summarize(rs: &Vec<ValidationResult>, processing_time_ms: u128) -> (s: BatchSummary)
    ensures
        s.total == rs@.len(),
        s.valid == count_valid(rs@),
        s.invalid == s.total - s.valid,
        s.total == s.valid + s.invalid,
        s.processing_time_ms == processing_time_ms,
{
    let valid = count_valid_results(rs);
    proof {
        lemma_count_valid_bounds(rs@);
    }
    BatchSummary { total: rs.len(), valid, invalid: rs.len() - valid, processing_time_ms }
}

/// The message of the policy error for an oversized batch.
pub open spec fn batch_size_message(batch: nat, max: nat) -> Seq<char> {
    "Batch size "@ + decimal_digits(batch) + " exceeds maximum of "@ + decimal_digits(max)
}

/// Validates a batch against the configured size policy. A batch larger than
/// `max_batch_size` is rejected before any validation with a policy error —
/// and only such a batch is. Otherwise every record is validated, in input
/// order, and the verdicts are summarized together with the elapsed
/// wall-clock time.
pub fn validate_batch(
    validator: &SignatureValidator,
    sigs: &Vec<EmailSignature>,
    max_batch_size: usize,
) -> (r: Result<BatchValidateResponse, AppError>)
    ensures
        r is Ok <==> sigs@.len() <= max_batch_size,
        r matches Ok(resp) ==> {
            &&& resp.results@.len() == sigs@.len()
            &&& (forall|i: int|
                0 <= i < sigs@.len() ==> outcome_matches(sigs@[i], resp.results@[i]))
            &&& resp.summary.total == sigs@.len()
            &&& resp.summary.valid == count_valid(resp.results@)
            &&& resp.summary.total == resp.summary.valid + resp.summary.invalid
        },
        r matches Err(e) ==> (e matches AppError::Validation(m) && m@ == batch_size_message(
            sigs@.len() as nat,
            max_batch_size as nat,
        )),
{
    let batch_size = sigs.len();
    if batch_size > max_batch_size {
        let b_str = format_usize(batch_size);
        let m_str = format_usize(max_batch_size);
        let msg = "Batch size ".to_owned().concat(b_str.as_str()).concat(
            " exceeds maximum of ",
        ).concat(m_str.as_str());
        return Err(AppError::Validation(msg));
    }
    let start = ext::now_timestamp_millis();
    let results = validator.validate_batch(sigs.as_slice());
    let end = ext::now_timestamp_millis();
    let elapsed_ms: u128 = if end >= start {
        (end as i128 - start as i128) as u128
    } else {
        0
    };
    let summary = summarize(&results, elapsed_ms);
    Ok(BatchValidateResponse { results, summary })
}

} // verus!
