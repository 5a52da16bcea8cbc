//! The error type of the engine.

use vstd::prelude::*;

verus! {

/// Why a pass could not do its work.
#[derive(Debug)]
pub struct EngineError {
    pub message: String,
}

} // verus!
