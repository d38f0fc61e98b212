//! Rust source generation from Smithy models, and the host's experimental
//! feature flags, with machine-checked contracts.

pub mod codegen;
pub mod declare;
pub mod emission;
pub mod error;
pub mod features;
pub mod laws;
pub mod order;
pub mod outside;
pub mod service;
pub mod smithy;
pub mod text;
pub mod types;
