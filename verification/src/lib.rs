//! Core of a template-rendering web service: an immutable catalog of
//! templates, fonts and binary assets collected from a directory tree, the
//! per-request render job that resolves a template and injects a synthetic
//! input file, fail-fast batch validation, the batch fan-in bookkeeping that
//! feeds a streaming archive, and the error taxonomy with its HTTP mapping.
use vstd::prelude::*;

pub mod assets;
pub mod batch;
pub mod error;
pub mod logging;
pub mod paths;
pub mod pdf;
pub mod stream;
