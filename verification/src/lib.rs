//! Validation engine for email signature submissions.
//!
//! A [`validator::SignatureValidator`] applies a fixed, ordered set of field
//! rules to one [`models::EmailSignature`] and produces one
//! [`models::ValidationResult`]; batches are fanned out across a thread pool
//! with the input order preserved. Every rule and every aggregate the engine
//! reports is stated as a contract and proved.

pub mod batch;
pub mod config;
pub mod email;
pub mod error;
pub mod ext;
pub mod metrics;
pub mod models;
pub mod pipeline;
pub mod text;
pub mod validator;
