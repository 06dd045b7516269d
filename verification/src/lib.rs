//! bgit: the rules, URL handling, configuration lookups and workflow
//! decisions behind a beginner-friendly Git front end.
pub mod text;
pub mod global_config;
pub mod auth_url;
pub mod error;
pub mod config;
pub mod rules;
pub mod pattern;
pub mod conventional_commit;
pub mod flags;
pub mod events;
pub mod ssh;
pub mod paths;
pub mod auth;
pub mod create_creds;
pub mod hooks;
pub mod workflow_queue;
pub mod cli;
pub mod llm_tools;
