//! Planning of compiled-shader output files.
//!
//! A shader build yields either one compiled artifact or one artifact per
//! entry point.  This library decides, ahead of any file-system work, where
//! each artifact belongs under a chosen output directory: entry-point names
//! are sanitized into file-system-safe stems, the artifact extension `.spv`
//! is forced, and the whole plan is a proven function of the inputs alone.
//! Build configuration is validated into an immutable request up front.

pub mod capability;
pub mod materialize;
pub mod paths;
pub mod request;
pub mod sanitize;
