//! Verified core of a code-grading worker: sandbox limits and outcomes,
//! fixture records, fuzz-campaign bookkeeping, plagiarism fingerprints
//! and the grading pipeline's scoring.
use vstd::prelude::*;

pub mod fingerprint;
pub mod fixtures;
pub mod fuzz;
pub mod grading;
pub mod json;
pub mod plagiarism;
pub mod sandbox;
pub mod syntax;
pub mod text;

verus! {

} // verus!
