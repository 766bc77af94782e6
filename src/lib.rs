//! Shared schema and loader for the `decomp.yaml` descriptor of a decompilation
//! project: the generic value that carries free-form settings, the typed
//! records, the classification of per-tool settings, the ascending search for
//! the descriptor file and the version queries.
pub mod value;
pub mod error;
pub mod yaml;
pub mod config;
pub mod tools;
pub mod schema;
pub mod loader;
