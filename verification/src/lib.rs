//! Verified core of the Greentic state providers and messaging renderer.

pub mod text;
pub mod json;
pub mod codec;
pub mod plan;
pub mod planner;
pub mod ac_extract;
pub mod context;
pub mod errors;
pub mod renderer;
pub mod lifecycle_keys;
pub mod provider;
pub mod component;
pub mod helpers;
pub mod qa_helpers;
pub mod qa_invoke_bridge;
pub mod config_fields;
pub mod state_memory;
pub mod state_redis;
pub mod pipeline;
pub mod http_compat;
