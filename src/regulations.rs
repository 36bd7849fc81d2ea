//! Query and answer types of the species and regulations lookups.

use vstd::prelude::*;

verus! {

/// Parameters of a species list lookup.
#[derive(Clone, Debug)]
pub struct FishQuery {
    pub country: Option<String>,
    pub language: Option<String>,
}

/// Parameters of a regulations lookup.
#[derive(Clone, Debug)]
pub struct RegulationsQuery {
    pub country: String,
    pub fish: Option<String>,
}

/// Verdict on a catch against the regulations that apply to it.
#[derive(Clone, Debug)]
pub struct ValidationResult {
    pub allowed: bool,
    pub errors: Vec<String>,
    pub warnings: Vec<String>,
}

} // verus!
