//! Drift scanning for infrastructure workspaces: where workspace state lives,
//! how the provisioning tool is found and run, how its output is read, and how
//! many workspaces are scanned at once.

pub mod text;
pub mod config;
pub mod json;
pub mod source;
pub mod source_laws;
pub mod listing;
pub mod gcs;
pub mod fetch;
pub mod runtime;
pub mod plan;
pub mod plan_laws;
pub mod scheduler;
pub mod scheduler_laws;
pub mod scan;
pub mod scan_laws;
