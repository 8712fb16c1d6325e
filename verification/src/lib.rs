//! The interactive driver of an LLM-backed coding-assistant session, as a
//! verified library: the turn-orchestration state machine, the tool
//! validation, permission and execution pipeline, the history-compaction
//! escalation ladder, the response-stream consumer, and the permission
//! policy. Everything the machine decides is specified and proved here; the
//! surrounding program performs the I/O each state calls for and hands the
//! outcomes back.
pub mod agent;
pub mod aws_context;
pub mod compaction;
pub mod conversation;
pub mod endpoint;
pub mod errors;
pub mod execute_bash;
pub mod message;
pub mod models;
pub mod protocol;
pub mod session;
pub mod shellwords;
pub mod stream;
pub mod subscription;
pub mod text;
pub mod trial;
pub mod tools;
pub mod use_aws;

pub use agent::PermissionEvalResult;

