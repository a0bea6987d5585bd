//! Request-handling logic of the Nauron gateway: input validation and access
//! rules, the classification and unpacking of uploads, the decisions behind
//! starting, reusing, following, retrying and resubmitting jobs, pipeline
//! summaries, download headers and the assembly of responses, each with a
//! contract checked by Verus.

pub mod admin;
pub mod archive;
pub mod artifacts;
pub mod callbacks;
pub mod config;
pub mod connections;
pub mod context_jobs;
pub mod contexts;
pub mod documents;
pub mod error;
pub mod files;
pub mod forms;
pub mod graph;
pub mod headers;
pub mod health;
pub mod ids;
pub mod ingest;
pub mod intake;
pub mod jobs;
pub mod launch;
pub mod numbers;
pub mod origins;
pub mod pagination;
pub mod pipelines;
pub mod responses;
pub mod retry;
pub mod search;
pub mod settings;
pub mod stats;
pub mod submissions;
pub mod text;
pub mod time;
pub mod uploads;
pub mod users;
