//! Behavioural and sandbox-evasion analysis passes over the findings of a
//! binary analysis engine.

pub mod context;
pub mod detection_laws;
pub mod double;
pub mod error;
pub mod evasion_laws;
pub mod laws;
pub mod matching;
pub mod pass;
pub mod passes;
pub mod text;
pub mod text_laws;
pub mod types;
