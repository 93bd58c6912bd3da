use email_processor::models::{EmailSignature, ErrorCode};
use email_processor::validator::SignatureValidator;

#[test]
fn test_valid_signature() {
    let validator = SignatureValidator::new();
    let sig = EmailSignature::builder()
        .name("John Doe")
        .email("john@example.com")
        .build();

    let result = validator.validate(&sig);
    assert!(result.valid);
    assert!(result.errors.is_empty());
}

#[test]
fn test_invalid_email() {
    let validator = SignatureValidator::new();
    let sig = EmailSignature::builder().email("invalid-email").build();

    let result = validator.validate(&sig);
    assert!(!result.valid);
    assert!(!result.errors.is_empty());
}

#[test]
fn invalid_email_single_finding() {
    let validator = SignatureValidator::new();
    let sig = EmailSignature::builder()
        .name("John Doe")
        .email("invalid-email")
        .build();

    let result = validator.validate(&sig);
    assert!(!result.valid);
    assert_eq!(result.errors.len(), 1);
    assert_eq!(result.errors[0].field, "email");
    assert_eq!(result.errors[0].message, "Invalid email format");
    assert_eq!(result.errors[0].code, ErrorCode::InvalidFormat);
}

#[test]
fn blank_name_is_required() {
    let validator = SignatureValidator::new();
    let sig = EmailSignature::builder().name("   ").email("a@b.co").build();

    let result = validator.validate(&sig);
    assert!(!result.valid);
    assert!(result
        .errors
        .iter()
        .any(|e| e.field == "name" && e.code == ErrorCode::Required));
    assert_eq!(result.errors[0].message, "Name is required");
}

#[test]
fn empty_name_is_required() {
    let validator = SignatureValidator::new();
    let sig = EmailSignature::builder().name("").email("a@b.co").build();

    let result = validator.validate(&sig);
    assert!(!result.valid);
    assert_eq!(result.errors.len(), 1);
    assert_eq!(result.errors[0].code, ErrorCode::Required);
}

#[test]
fn name_of_exactly_100_chars_is_accepted() {
    let validator = SignatureValidator::new();
    let name = "x".repeat(100);
    let sig = EmailSignature::builder().name(&name).email("a@b.co").build();

    let result = validator.validate(&sig);
    assert!(result.valid);
    assert!(result.errors.is_empty());
}

#[test]
fn name_of_101_chars_is_too_long() {
    let validator = SignatureValidator::new();
    let name = "x".repeat(101);
    let sig = EmailSignature::builder().name(&name).email("a@b.co").build();

    let result = validator.validate(&sig);
    assert!(!result.valid);
    assert_eq!(result.errors.len(), 1);
    assert_eq!(result.errors[0].field, "name");
    assert_eq!(result.errors[0].message, "Name too long (max 100 characters)");
    assert_eq!(result.errors[0].code, ErrorCode::TooLong);
}

#[test]
fn long_blank_name_gets_both_name_findings_in_rule_order() {
    let validator = SignatureValidator::new();
    let name = " ".repeat(101);
    let sig = EmailSignature::builder().name(&name).email("a@b.co").build();

    let result = validator.validate(&sig);
    assert!(!result.valid);
    assert_eq!(result.errors.len(), 2);
    assert_eq!(result.errors[0].code, ErrorCode::Required);
    assert_eq!(result.errors[1].code, ErrorCode::TooLong);
}

#[test]
fn all_rules_report_independently() {
    let validator = SignatureValidator::new();
    let name = " ".repeat(101);
    let sig = EmailSignature::builder().name(&name).email("nope").build();

    let result = validator.validate(&sig);
    assert!(!result.valid);
    assert_eq!(result.errors.len(), 3);
    assert_eq!(result.errors[0].code, ErrorCode::Required);
    assert_eq!(result.errors[1].code, ErrorCode::TooLong);
    assert_eq!(result.errors[2].code, ErrorCode::InvalidFormat);
    assert_eq!(result.errors[2].field, "email");
}

#[test]
fn verdict_names_the_record_and_has_no_warnings() {
    let validator = SignatureValidator::new();
    let sig = EmailSignature::builder().build();

    let result = validator.validate(&sig);
    assert_eq!(result.signature_id, sig.id);
    assert!(result.warnings.is_empty());
}

#[test]
fn validate_is_idempotent_up_to_timestamp() {
    let validator = SignatureValidator::new();
    let sig = EmailSignature::builder().name("  ").email("bad").build();

    let first = validator.validate(&sig);
    let second = validator.validate(&sig);
    assert_eq!(first.valid, second.valid);
    assert_eq!(first.errors.len(), second.errors.len());
    for (a, b) in first.errors.iter().zip(second.errors.iter()) {
        assert_eq!(a.field, b.field);
        assert_eq!(a.message, b.message);
        assert_eq!(a.code, b.code);
    }
}

#[test]
fn email_shapes_accepted() {
    let validator = SignatureValidator::new();
    for email in [
        "a@b.co",
        "john@example.com",
        "john.doe+tag%x_y-z@sub-domain.example.org",
        "a@b..co",
        "UPPER@CASE.ORG",
        "1@2.ab",
    ] {
        let sig = EmailSignature::builder().name("n").email(email).build();
        let result = validator.validate(&sig);
        assert!(result.valid, "expected {} to be accepted", email);
    }
}

#[test]
fn email_shapes_rejected() {
    let validator = SignatureValidator::new();
    for email in [
        "",
        "invalid-email",
        "a@b.c",
        "a@b",
        "@b.co",
        "a@.co",
        "a@",
        "a b@c.co",
        "a@b.c2",
        "a@b@c.co",
        "a@b.co.",
        "j\u{00f6}hn@b.co",
    ] {
        let sig = EmailSignature::builder().name("n").email(email).build();
        let result = validator.validate(&sig);
        assert!(!result.valid, "expected {} to be rejected", email);
        assert_eq!(result.errors[0].code, ErrorCode::InvalidFormat);
    }
}

#[test]
fn unicode_whitespace_counts_as_blank() {
    let validator = SignatureValidator::new();
    let sig = EmailSignature::builder()
        .name("\u{00a0}\u{2003}\t\n")
        .email("a@b.co")
        .build();

    let result = validator.validate(&sig);
    assert!(!result.valid);
    assert_eq!(result.errors[0].code, ErrorCode::Required);
}

#[test]
fn unicode_name_is_counted_in_characters() {
    let validator = SignatureValidator::new();
    // 100 two-byte characters: over 100 bytes, but not over 100 characters.
    let name = "\u{00e9}".repeat(100);
    let sig = EmailSignature::builder().name(&name).email("a@b.co").build();

    let result = validator.validate(&sig);
    assert!(result.valid);
}
