//! Enrichment pipeline for dependency security reports.
//!
//! Given an ordered batch of dependency references, each item is enriched in
//! two chained lookups: the package registry resolves the dependency name to
//! an optional source-repository URL, and the scorecard service maps that URL
//! to an optional security score. Per-item failures degrade to absent fields;
//! the batch as a whole never fails, and the output keeps the input order.
//!
//! Network transport lives outside this crate: callers perform the HTTP
//! requests and hand status codes and body text to the verified
//! interpretation functions here.

pub mod json;
pub mod laws;
pub mod listing;
pub mod lookup;
pub mod model;
pub mod orchestrator;
pub mod text;
