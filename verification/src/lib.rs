//! Core of a tool-augmented conversational agent runtime.
//!
//! The crate provides the orchestration logic that drives a multi-turn loop
//! between a language-model backend and a set of external tool servers:
//! the turn-based agentic loop with its retry and timeout policy, the tool
//! registry with its JSON-RPC line protocol, the context-window manager
//! that compresses conversation history, and the rate-limit/backoff handler
//! shared by model backends.  All I/O (process spawning, pipes, HTTP,
//! sleeping) is left to the embedding application; this crate holds the
//! decisions and the data, stated in contracts and verified.

pub mod chat;
pub mod config;
pub mod context;
pub mod engine;
pub mod files;
pub mod json;
pub mod logger;
pub mod rate_limit;
pub mod registry;
pub mod rpc;
pub mod text;
pub mod tokens;
pub mod turns;
pub mod ui;
