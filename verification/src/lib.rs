//! Splits a multi-document Kubernetes manifest into named packages.
//!
//! Each document is classified by an ordered list of split rules
//! (first match wins, with a configured default package as fallback),
//! and file names, paths and package descriptors are produced by
//! rendering user-supplied templates.

pub mod accumulator;
pub mod classify;
pub mod ctx;
pub mod digits;
pub mod docs;
pub mod jsonenc;
pub mod matcher;
pub mod model;
pub mod pipeline;
pub mod render;
pub mod text;
