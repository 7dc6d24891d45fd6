//! Verified core of the NYX desktop agent: workspace scoping, policy
//! decisions, secret redaction, tool catalogues and the agent's task
//! state machine.
pub mod text;
pub mod task;
pub mod path;
pub mod security;
pub mod tools;
pub mod tools_fs;
pub mod host;
pub mod integrations;
pub mod connectors;
pub mod json;
pub mod planner;
pub mod scheduler;
pub mod voice;
pub mod agent;
