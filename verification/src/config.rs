//! The settings that request handling reads.
use vstd::prelude::*;

verus! {

/// Gateway settings used when files are stored and jobs are started.
#[derive(Debug, Clone)]
pub struct AppConfig {
    /// Bucket that uploaded source documents go to.
    pub input_bucket: String,
    /// Key prefix for uploaded source documents; empty for none.
    pub input_prefix: String,
    /// Bucket for generated artifacts.
    pub output_bucket: String,
    /// Key prefix for generated artifacts.
    pub output_prefix: String,
    pub progress_topic: String,
    pub result_topic: String,
    pub rdf_progress_topic: String,
    pub rdf_result_topic: String,
    /// Whether an upload whose content is already known reuses earlier work.
    pub files_dedup_enabled: bool,
}

} // verus!
