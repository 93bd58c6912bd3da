//! The pipeline facade the transport layer holds: one validator instance,
//! shared read-only by every request.

use vstd::prelude::*;
use crate::models::{EmailSignature, ValidationResult};
use crate::validator::{outcome_matches, SignatureValidator};

verus! {

pub struct PipelineManager {
    validator: SignatureValidator,
}

impl PipelineManager {
    pub fn new() -> (p: Self) {
        PipelineManager { validator: SignatureValidator::new() }
    }

    /// Validates one record.
    pub fn process_single(&self, sig: EmailSignature) -> (r: ValidationResult)
        ensures
            outcome_matches(sig, r),
    {
        self.validator.validate(&sig)
    }

    /// Validates a batch, one verdict per record, in input order.
    pub fn process_batch(&self, sigs: Vec<EmailSignature>) -> (rs: Vec<ValidationResult>)
        ensures
            rs@.len() == sigs@.len(),
            forall|i: int| 0 <= i < sigs@.len() ==> outcome_matches(sigs@[i], rs@[i]),
    {
        self.validator.validate_batch(sigs.as_slice())
    }
}

} // verus!
