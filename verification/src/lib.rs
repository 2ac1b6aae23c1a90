//! Verified core of an agent-prompt optimisation harness: manifest
//! defaults, sandbox command construction, evaluator decisions, run
//! fingerprints and the epoch / waterfall control loops.

pub mod text;
pub mod json;
pub mod fingerprint;
pub mod shell;
pub mod manifest;
pub mod evaluator;
pub mod runner;
pub mod container;
pub mod llm_client;
pub mod optimizer;
pub mod reporter;
pub mod embedded_llm;
pub mod orchestrator;
