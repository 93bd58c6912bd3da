//! The service configuration: its shape, the built-in defaults, and the
//! startup check. Reading overrides from the environment is the caller's
//! concern; the engine only owns what a configuration must satisfy.

use vstd::prelude::*;
use crate::error::AppError;

verus! {

#[derive(Debug, Clone)]
pub struct Config {
    pub server: ServerConfig,
    pub pipeline: PipelineConfig,
    pub observability: ObservabilityConfig,
}

#[derive(Debug, Clone)]
pub struct ServerConfig {
    pub host: String,
    pub port: u16,
    pub workers: usize,
}

#[derive(Debug, Clone)]
pub struct PipelineConfig {
    pub workers: usize,
    pub max_batch_size: usize,
}

#[derive(Debug, Clone)]
pub struct ObservabilityConfig {
    pub log_level: String,
    pub log_format: String,
}

impl Config {
    /// The built-in defaults: the configuration the service starts from when
    /// nothing overrides it.
    pub fn load() -> (c: Config)
        ensures
            c.server.host@ == "0.0.0.0"@,
            c.server.port == 8080,
            c.server.workers == 4,
            c.pipeline.workers == 4,
            c.pipeline.max_batch_size == 1000,
            c.observability.log_level@ == "info"@,
            c.observability.log_format@ == "json"@,
    {
        Config {
            server: ServerConfig { host: "0.0.0.0".to_owned(), port: 8080, workers: 4 },
            pipeline: PipelineConfig { workers: 4, max_batch_size: 1000 },
            observability: ObservabilityConfig {
                log_level: "info".to_owned(),
                log_format: "json".to_owned(),
            },
        }
    }

    /// The startup check: a configuration is accepted exactly when the port,
    /// the worker count and the batch-size limit are all non-zero; the first
    /// zero found, in that order, names the error. A failure here is fatal at
    /// startup, never surfaced per request.
    pub fn validate(&self) -> (r: Result<(), AppError>)
        ensures
            r is Ok <==> (self.server.port != 0 && self.server.workers != 0
                && self.pipeline.max_batch_size != 0),
            self.server.port == 0 ==> (r matches Err(e) && e matches AppError::Config(m) && m@
                == "Server port cannot be 0"@),
            self.server.port != 0 && self.server.workers == 0 ==> (r matches Err(e)
                && e matches AppError::Config(m) && m@ == "Server workers cannot be 0"@),
            self.server.port != 0 && self.server.workers != 0 && self.pipeline.max_batch_size == 0
                ==> (r matches Err(e) && e matches AppError::Config(m) && m@
                == "Max batch size cannot be 0"@),
    {
        if self.server.port == 0 {
            return Err(AppError::Config("Server port cannot be 0".to_owned()));
        }
        if self.server.workers == 0 {
            return Err(AppError::Config("Server workers cannot be 0".to_owned()));
        }
        if self.pipeline.max_batch_size == 0 {
            return Err(AppError::Config("Max batch size cannot be 0".to_owned()));
        }
        Ok(())
    }
}

} // verus!
