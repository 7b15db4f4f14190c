//! Orchestration core for long-running agent jobs: the pipelines that
//! provision an environment, hand work to a coding agent and follow it until
//! a pull request exists, written as state machines that a driver feeds with
//! the outcome of each outside step.

pub mod auth;
pub mod commands;
pub mod encoding;
pub mod engine;
pub mod error;
pub mod github;
pub mod http;
pub mod json;
pub mod jules;
pub mod registry;
pub mod remote_engine;
pub mod scaffold_engine;
pub mod ssh_utils;
pub mod text;
pub mod types;
pub mod uplink_engine;
