use email_processor::batch;
use email_processor::error::AppError;
use email_processor::models::EmailSignature;
use email_processor::pipeline::PipelineManager;
use email_processor::validator::SignatureValidator;

fn record(id: u128, name: &str, email: &str) -> EmailSignature {
    EmailSignature {
        id,
        name: name.to_string(),
        email: email.to_string(),
        phone: None,
        company: None,
        title: None,
        template_id: 7,
        created_at: 0,
    }
}

#[test]
fn test_validate_batch() {
    let validator = SignatureValidator::new();
    let sigs = vec![
        EmailSignature::builder().email("valid@example.com").build(),
        EmailSignature::builder().email("invalid").build(),
    ];

    let response = batch::validate_batch(&validator, &sigs, 1000).unwrap();
    assert_eq!(response.results.len(), 2);
    assert_eq!(response.summary.total, 2);
    assert_eq!(response.summary.valid, 1);
    assert_eq!(response.summary.invalid, 1);
    assert!(response.results[0].valid);
    assert!(!response.results[1].valid);
}

#[test]
fn batch_preserves_input_order() {
    let validator = SignatureValidator::new();
    let sigs = vec![
        record(11, "Ada", "ada@lovelace.org"),
        record(22, "", "broken"),
        record(33, "Grace", "grace@hopper.mil"),
    ];

    let results = validator.validate_batch(&sigs);
    assert_eq!(results.len(), 3);
    for (sig, result) in sigs.iter().zip(results.iter()) {
        assert_eq!(result.signature_id, sig.id);
    }
    assert!(results[0].valid);
    assert!(!results[1].valid);
    assert!(results[2].valid);
}

#[test]
fn empty_batch_yields_empty_output() {
    let validator = SignatureValidator::new();
    let sigs: Vec<EmailSignature> = Vec::new();

    let response = batch::validate_batch(&validator, &sigs, 1000).unwrap();
    assert!(response.results.is_empty());
    assert_eq!(response.summary.total, 0);
    assert_eq!(response.summary.valid, 0);
    assert_eq!(response.summary.invalid, 0);
}

#[test]
fn summary_counts_agree_with_len() {
    let validator = SignatureValidator::new();
    let sigs = vec![
        record(1, "A", "a@b.co"),
        record(2, "B", "bad"),
        record(3, "", "c@d.co"),
        record(4, "D", "d@e.co"),
    ];

    let response = batch::validate_batch(&validator, &sigs, 1000).unwrap();
    assert_eq!(response.summary.total, sigs.len());
    assert_eq!(
        response.summary.total,
        response.summary.valid + response.summary.invalid
    );
    assert_eq!(response.summary.valid, 2);
}

#[test]
fn oversized_batch_is_rejected_before_validation() {
    let validator = SignatureValidator::new();
    let sigs = vec![record(1, "A", "a@b.co"), record(2, "B", "b@c.co")];

    let err = batch::validate_batch(&validator, &sigs, 1).unwrap_err();
    match &err {
        AppError::Validation(msg) => {
            assert_eq!(msg, "Batch size 2 exceeds maximum of 1");
        }
        other => panic!("expected a validation error, got {:?}", other),
    }
    assert_eq!(err.status_code(), 400);
    assert_eq!(
        err.to_message(),
        "Validation error: Batch size 2 exceeds maximum of 1"
    );
}

#[test]
fn batch_at_the_limit_is_accepted() {
    let validator = SignatureValidator::new();
    let sigs = vec![record(1, "A", "a@b.co"), record(2, "B", "b@c.co")];

    let response = batch::validate_batch(&validator, &sigs, 2).unwrap();
    assert_eq!(response.results.len(), 2);
}

#[test]
fn pipeline_delegates_to_the_validator() {
    let pipeline = PipelineManager::new();

    let single = pipeline.process_single(record(5, "Ada", "ada@lovelace.org"));
    assert!(single.valid);
    assert_eq!(single.signature_id, 5);

    let results = pipeline.process_batch(vec![
        record(6, "Ada", "ada@lovelace.org"),
        record(7, "", "x"),
    ]);
    assert_eq!(results.len(), 2);
    assert_eq!(results[0].signature_id, 6);
    assert_eq!(results[1].signature_id, 7);
    assert!(!results[1].valid);
}
