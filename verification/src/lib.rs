//! A verified core for a local large-language-model inference engine.
//!
//! The crate owns the lifecycle of a resident model (load, generate,
//! unload), sizes the KV cache for each generation request, plans chunked
//! prefill over long prompts, drives the token-by-token decode protocol,
//! and cleans the detokenized output.  Calls into the native model runtime
//! are performed by the embedding program, which drives the state machines
//! defined here and feeds their outcomes back in as plain values.

pub mod error;
pub mod generation;
pub mod host;
pub mod memory;
pub mod metadata;
pub mod output;
pub mod sizing;
pub mod state;
pub mod strutil;
pub mod support;
pub mod vision;
