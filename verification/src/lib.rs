//! Build-orchestration gateway: accepts untrusted source text, serializes
//! builds against a single shared working directory, classifies the outcome
//! of the external toolchain, collects the produced artifacts, and encodes
//! the typed result into a self-describing binary envelope.
//!
//! The process boundary (HTTP serving, subprocess spawning, filesystem
//! access) lives outside this crate; everything here is the decision logic
//! those edges delegate to.

pub mod admission;
pub mod client;
pub mod codec;
pub mod config;
pub mod collector;
pub mod errors;
pub mod gateway;
pub mod orchestrator;
pub mod outcome;
pub mod response;
pub mod share;
pub mod strutil;
pub mod ui_state;
