//! Verified core of the prism coordination runtime: authority stores,
//! event-execution records, runtime descriptors, materialization metadata
//! and workspace layout helpers.

pub mod text;
pub mod admission;
pub mod reads;
pub mod coordination;
pub mod authority_types;
pub mod execution_substrate;
pub mod event_execution;
pub mod runtime_registry;
pub mod checkpoint;
pub mod mutation_error;
pub mod persistence;
pub mod sqlite_authority;
pub mod git_shared_refs;
pub mod factory;
pub mod authority_api;
pub mod layout;
pub mod laws;
pub mod refresh;
pub mod materialized;
pub mod curator;
pub mod substrate_store;
pub mod materializer;
