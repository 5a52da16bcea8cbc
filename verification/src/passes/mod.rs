//! The passes that correlate the findings of the earlier ones.

pub mod behavior;
pub mod sandbox;
