//! Computes which entities of an RDF store must be deleted together with a
//! seed entity, and emits the SPARQL statements that delete them.

pub mod json;
pub mod results;
pub mod query;
pub mod snippet;
pub mod frontier;
pub mod config;
pub mod traversal;
pub mod walk;
