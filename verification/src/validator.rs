//! The validation engine: a fixed, ordered set of field rules applied to one
//! submission, and a parallel batch runner that preserves input order.
//!
//! [`spec_findings`] is the rule set as a mathematical function of the name
//! and email; [`outcome_matches`] says what any verdict the engine hands out
//! satisfies. The laws at the bottom state the engine's guarantees record by
//! record.

use vstd::prelude::*;
use vstd::string::StrSliceExecFns;
use crate::email;
use crate::email::valid_email;
use crate::ext;
use crate::models::{EmailSignature, ErrorCode, ValidationError, ValidationResult};
use crate::text;
use crate::text::blank;

use rayon::iter::{IntoParallelRefIterator, ParallelIterator};

verus! {

/// The finding the name-presence rule appends when the name is blank.
pub open spec fn required_name_finding() -> (Seq<char>, Seq<char>, ErrorCode) {
    ("name"@, "Name is required"@, ErrorCode::Required)
}

/// The finding the name-length rule appends when the name has more than 100
/// characters.
pub open spec fn too_long_name_finding() -> (Seq<char>, Seq<char>, ErrorCode) {
    ("name"@, "Name too long (max 100 characters)"@, ErrorCode::TooLong)
}

/// The finding the email-syntax rule appends when the email does not match
/// the pattern.
pub open spec fn invalid_email_finding() -> (Seq<char>, Seq<char>, ErrorCode) {
    ("email"@, "Invalid email format"@, ErrorCode::InvalidFormat)
}

/// The findings for a record with the given name and email, in rule order:
/// name presence, then name length, then email syntax. Each rule is judged
/// independently; none short-circuits another.
pub open spec fn spec_findings(name: Seq<char>, email: Seq<char>) -> Seq<
    (Seq<char>, Seq<char>, ErrorCode),
> {
    (if blank(name) {
        seq![required_name_finding()]
    } else {
        Seq::<(Seq<char>, Seq<char>, ErrorCode)>::empty()
    }) + (if name.len() > 100 {
        seq![too_long_name_finding()]
    } else {
        Seq::<(Seq<char>, Seq<char>, ErrorCode)>::empty()
    }) + (if !valid_email(email) {
        seq![invalid_email_finding()]
    } else {
        Seq::<(Seq<char>, Seq<char>, ErrorCode)>::empty()
    })
}

/// The findings a verdict carries, as (field, message, code) triples.
pub open spec fn errors_view(es: Seq<ValidationError>) -> Seq<(Seq<char>, Seq<char>, ErrorCode)> {
    es.map_values(|e: ValidationError| e@)
}

/// What every verdict for `sig` satisfies: it names the record, carries
/// exactly the rule findings in rule order, is valid exactly when there is
/// no finding, and has no warnings. The timestamp is the one field left
/// open.
pub open spec fn outcome_matches(sig: EmailSignature, r: ValidationResult) -> bool {
    &&& r.signature_id == sig.id
    &&& errors_view(r.errors@) == spec_findings(sig.name@, sig.email@)
    &&& r.valid == (spec_findings(sig.name@, sig.email@).len() == 0)
    &&& r.warnings@.len() == 0
}

/// Applies the rule set. Stateless: it holds no mutable fields, so one
/// instance is safely shared across concurrent validations.
pub struct SignatureValidator;

/// Relies on rayon's parallel map over a slice
/// (`par_iter().map(..).collect::<Vec<_>>()`): a slice's parallel iterator is
/// indexed, so the collected vector has one element per input, in the
/// input's order, each the closure's result on the corresponding input. The
/// closure only calls the verified [`SignatureValidator::validate`], whose
/// contract gives each element's properties.
#[verifier::external_body]
fn par_validate(v: &SignatureValidator, sigs: &[EmailSignature]) -> (rs: Vec<ValidationResult>)
    ensures
        rs@.len() == sigs@.len(),
        forall|i: int| 0 <= i < sigs@.len() ==> outcome_matches(sigs@[i], rs@[i]),
{
    sigs.par_iter().map(|sig| v.validate(sig)).collect()
}

impl SignatureValidator {
    pub fn new() -> (v: Self) {
        SignatureValidator
    }

    /// Validates one record: the verdict carries a finding per violated rule,
    /// in rule order, and is valid exactly when no rule was violated. Total:
    /// every record gets a verdict, never an error.
    pub fn validate(&self, sig: &EmailSignature) -> (r: ValidationResult)
        ensures
            outcome_matches(*sig, r),
    {
        let mut errors: Vec<ValidationError> = Vec::new();

        if text::is_blank(sig.name.as_str()) {
            errors.push(
                ValidationError {
                    field: "name".to_owned(),
                    message: "Name is required".to_owned(),
                    code: ErrorCode::Required,
                },
            );
        }

        if sig.name.as_str().unicode_len() > 100 {
            errors.push(
                ValidationError {
                    field: "name".to_owned(),
                    message: "Name too long (max 100 characters)".to_owned(),
                    code: ErrorCode::TooLong,
                },
            );
        }

        if !email::matches_email(sig.email.as_str()) {
            errors.push(
                ValidationError {
                    field: "email".to_owned(),
                    message: "Invalid email format".to_owned(),
                    code: ErrorCode::InvalidFormat,
                },
            );
        }

        let valid = errors.len() == 0;
        proof {
            assert(errors_view(errors@) =~= spec_findings(sig.name@, sig.email@));
        }
        ValidationResult {
            signature_id: sig.id,
            valid,
            errors,
            warnings: Vec::new(),
            validated_at: ext::now_timestamp_millis(),
        }
    }

    /// Validates a batch: one verdict per record, `rs[i]` for `sigs[i]`. The
    /// order is guaranteed regardless of how the work was scheduled, and the
    /// empty batch yields the empty output.
    pub fn validate_batch(&self, sigs: &[EmailSignature]) -> (rs: Vec<ValidationResult>)
        ensures
            rs@.len() == sigs@.len(),
            forall|i: int| 0 <= i < sigs@.len() ==> outcome_matches(sigs@[i], rs@[i]),
            forall|i: int| 0 <= i < sigs@.len() ==> rs@[i].signature_id == sigs@[i].id,
    {
        let rs = par_validate(self, sigs);
        proof {
            assert(forall|i: int|
                0 <= i < sigs@.len() ==> rs@[i].signature_id == sigs@[i].id) by {
                assert(forall|i: int| 0 <= i < sigs@.len() ==> #[trigger] outcome_matches(
                    sigs@[i],
                    rs@[i],
                ));
            }
        }
        rs
    }
}

/// Law: a record whose trimmed name is non-empty, whose name is at most 100
/// characters, and whose email matches the pattern validates cleanly: the
/// verdict is valid and carries no finding.
pub proof fn lemma_clean_record_validates(sig: EmailSignature, r: ValidationResult)
    requires
        outcome_matches(sig, r),
        !blank(sig.name@),
        sig.name@.len() <= 100,
        valid_email(sig.email@),
    ensures
        r.valid,
        r.errors@.len() == 0,
{
    assert(spec_findings(sig.name@, sig.email@).len() == 0);
    assert(errors_view(r.errors@).len() == r.errors@.len());
}

/// Law: a record whose name is blank (empty once trimmed) gets a verdict
/// that is invalid and contains a `Required` finding on the `name` field.
pub proof fn lemma_blank_name_flagged(sig: EmailSignature, r: ValidationResult)
    requires
        outcome_matches(sig, r),
        blank(sig.name@),
    ensures
        !r.valid,
        exists|i: int|
            0 <= i < r.errors@.len() && (#[trigger] r.errors@[i])@.0 == "name"@ && r.errors@[i]@.2
                == ErrorCode::Required,
{
    assert(spec_findings(sig.name@, sig.email@)[0] == required_name_finding());
    assert(errors_view(r.errors@)[0] == r.errors@[0]@);
    assert(r.errors@[0]@.0 == "name"@ && r.errors@[0]@.2 == ErrorCode::Required);
}

/// Law: a record whose name has more than 100 characters (before any
/// trimming) gets a verdict that is invalid and contains a `TooLong` finding
/// on the `name` field.
pub proof fn lemma_long_name_flagged(sig: EmailSignature, r: ValidationResult)
    requires
        outcome_matches(sig, r),
        sig.name@.len() > 100,
    ensures
        !r.valid,
        exists|i: int|
            0 <= i < r.errors@.len() && (#[trigger] r.errors@[i])@.0 == "name"@ && r.errors@[i]@.2
                == ErrorCode::TooLong,
{
    let k: int = if blank(sig.name@) {
        1
    } else {
        0
    };
    assert(spec_findings(sig.name@, sig.email@)[k] == too_long_name_finding());
    assert(errors_view(r.errors@)[k] == r.errors@[k]@);
    assert(r.errors@[k]@.0 == "name"@ && r.errors@[k]@.2 == ErrorCode::TooLong);
}

/// Law: a record whose email does not match the pattern gets a verdict that
/// is invalid and contains an `InvalidFormat` finding on the `email` field.
pub proof fn lemma_bad_email_flagged(sig: EmailSignature, r: ValidationResult)
    requires
        outcome_matches(sig, r),
        !valid_email(sig.email@),
    ensures
        !r.valid,
        exists|i: int|
            0 <= i < r.errors@.len() && (#[trigger] r.errors@[i])@.0 == "email"@ && r.errors@[i]@.2
                == ErrorCode::InvalidFormat,
{
    let k = spec_findings(sig.name@, sig.email@).len() - 1;
    assert(spec_findings(sig.name@, sig.email@)[k] == invalid_email_finding());
    assert(errors_view(r.errors@)[k] == r.errors@[k]@);
    assert(r.errors@[k]@.0 == "email"@ && r.errors@[k]@.2 == ErrorCode::InvalidFormat);
}

/// Law: validation is deterministic in everything but the timestamp. Two
/// verdicts for the same record agree on validity and on the findings,
/// however far apart the calls were.
pub proof fn lemma_validate_deterministic(
    sig: EmailSignature,
    r1: ValidationResult,
    r2: ValidationResult,
)
    requires
        outcome_matches(sig, r1),
        outcome_matches(sig, r2),
    ensures
        r1.valid == r2.valid,
        errors_view(r1.errors@) == errors_view(r2.errors@),
        r1.signature_id == r2.signature_id,
{
}

} // verus!
