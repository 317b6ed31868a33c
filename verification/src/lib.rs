//! A fetch-descriptor pipeline: it extracts structured identifiers from a
//! source URL's path, decides how a missing revision is resolved, plans one
//! of four hashing strategies, and serializes the resolved invocation as a
//! declarative expression or as JSON, merging caller-supplied overwrites
//! with computed fields. The stages that wait on outside work — revision
//! discovery and hashing — hand the caller a fully-determined request and
//! take its outcome back as a plain value.

pub mod descriptor;
pub mod expr;
pub mod fetcher;
pub mod fields;
pub mod github;
pub mod overwrites;
pub mod render;
pub mod simple;
pub mod strategy;
pub mod submodules;
pub mod url;
