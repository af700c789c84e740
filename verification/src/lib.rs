//! Verified core of a wrapper around the Codex CLI: argument construction, capability
//! detection and gating, version/update advisories, JSONL event normalization and
//! MCP server configuration bookkeeping.

pub mod text;
pub mod order;
pub mod version;
pub mod time;
pub mod capabilities;
pub mod advisory;
pub mod json;
pub mod features;
pub mod probe;
pub mod cache;
pub mod home;
pub mod overrides;
pub mod cli;
pub mod client;
pub mod auth;
pub mod jsonl;
pub mod events;
pub mod mcp_config;
pub mod mcp_runtime;
pub mod app_runtime;
pub mod jsonrpc;
pub mod path;
