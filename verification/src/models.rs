//! The data model: a signature submission, the verdict for one submission,
//! and a builder that fills unspecified fields with sensible defaults.

use vstd::prelude::*;
use crate::ext;

verus! {

/// One email signature submission. The identifier is assigned once, at
/// construction, and never mutated.
#[derive(Debug, Clone)]
pub struct EmailSignature {
    pub id: u128,
    pub name: String,
    pub email: String,
    pub phone: Option<String>,
    pub company: Option<String>,
    pub title: Option<String>,
    pub template_id: u128,
    pub created_at: i64,
}

/// The classification of one rule violation.
#[derive(Debug, Clone, Copy, PartialEq, Eq, Structural)]
pub enum ErrorCode {
    Required,
    InvalidFormat,
    TooLong,
    TooShort,
}

/// One rule violation: the field it concerns, a human-readable message, and
/// its classification.
#[derive(Debug, Clone)]
pub struct ValidationError {
    pub field: String,
    pub message: String,
    pub code: ErrorCode,
}

impl View for ValidationError {
    type V = (Seq<char>, Seq<char>, ErrorCode);

    open spec fn view(&self) -> Self::V {
        (self.field@, self.message@, self.code)
    }
}

/// The verdict for one submission: valid exactly when no finding was made,
/// findings in rule order, warnings reserved (always empty), and the time
/// validation ran.
#[derive(Debug, Clone)]
pub struct ValidationResult {
    pub signature_id: u128,
    pub valid: bool,
    pub errors: Vec<ValidationError>,
    pub warnings: Vec<String>,
    pub validated_at: i64,
}

impl EmailSignature {
    /// A builder with every field unset.
    pub fn builder() -> (b: EmailSignatureBuilder)
        ensures
            b.name is None,
            b.email is None,
            b.phone is None,
            b.company is None,
            b.title is None,
            b.template_id is None,
    {
        EmailSignatureBuilder {
            name: None,
            email: None,
            phone: None,
            company: None,
            title: None,
            template_id: None,
        }
    }
}

/// Builds an [`EmailSignature`] from partially specified fields; anything
/// left unset gets a default. Meant for constructing test data.
pub struct EmailSignatureBuilder {
    pub name: Option<String>,
    pub email: Option<String>,
    pub phone: Option<String>,
    pub company: Option<String>,
    pub title: Option<String>,
    pub template_id: Option<u128>,
}

impl EmailSignatureBuilder {
    pub fn name(self, name: &str) -> (b: Self)
        ensures
            b.name matches Some(v) && v@ == name@,
            b.email == self.email,
            b.phone == self.phone,
            b.company == self.company,
            b.title == self.title,
            b.template_id == self.template_id,
    {
        Self { name: Some(name.to_owned()), ..self }
    }

    pub fn email(self, email: &str) -> (b: Self)
        ensures
            b.email matches Some(v) && v@ == email@,
            b.name == self.name,
            b.phone == self.phone,
            b.company == self.company,
            b.title == self.title,
            b.template_id == self.template_id,
    {
        Self { email: Some(email.to_owned()), ..self }
    }

    pub fn phone(self, phone: &str) -> (b: Self)
        ensures
            b.phone matches Some(v) && v@ == phone@,
            b.name == self.name,
            b.email == self.email,
            b.company == self.company,
            b.title == self.title,
            b.template_id == self.template_id,
    {
        Self { phone: Some(phone.to_owned()), ..self }
    }

    pub fn company(self, company: &str) -> (b: Self)
        ensures
            b.company matches Some(v) && v@ == company@,
            b.name == self.name,
            b.email == self.email,
            b.phone == self.phone,
            b.title == self.title,
            b.template_id == self.template_id,
    {
        Self { company: Some(company.to_owned()), ..self }
    }

    pub fn title(self, title: &str) -> (b: Self)
        ensures
            b.title matches Some(v) && v@ == title@,
            b.name == self.name,
            b.email == self.email,
            b.phone == self.phone,
            b.company == self.company,
            b.template_id == self.template_id,
    {
        Self { title: Some(title.to_owned()), ..self }
    }

    pub fn template_id(self, id: u128) -> (b: Self)
        ensures
            b.template_id == Some(id),
            b.name == self.name,
            b.email == self.email,
            b.phone == self.phone,
            b.company == self.company,
            b.title == self.title,
    {
        Self { template_id: Some(id), ..self }
    }

    /// Builds the submission: unset name and email fall back to a default
    /// test identity, an unset template reference to a fresh identifier, and
    /// the creation time to the clock.
    pub fn build(self) -> (sig: EmailSignature)
        ensures
            (match self.name {
                Some(v) => sig.name@ == v@,
                None => sig.name@ == "John Doe"@,
            }),
            (match self.email {
                Some(v) => sig.email@ == v@,
                None => sig.email@ == "john@example.com"@,
            }),
            sig.phone == self.phone,
            sig.company == self.company,
            sig.title == self.title,
            (self.template_id matches Some(id) ==> sig.template_id == id),
    {
        let name = match self.name {
            Some(v) => v,
            None => "John Doe".to_owned(),
        };
        let email = match self.email {
            Some(v) => v,
            None => "john@example.com".to_owned(),
        };
        let template_id = match self.template_id {
            Some(id) => id,
            None => ext::fresh_id(),
        };
        EmailSignature {
            id: ext::fresh_id(),
            name,
            email,
            phone: self.phone,
            company: self.company,
            title: self.title,
            template_id,
            created_at: ext::now_timestamp_millis(),
        }
    }
}

} // verus!
