//! Vocabulary shared by the passes.

use vstd::prelude::*;

verus! {

/// How serious a finding is.
#[derive(Debug, Clone, Copy, PartialEq, Eq, Structural)]
pub enum Severity {
    Low,
    Medium,
    High,
    Critical,
}

/// What kind of text a string found in a binary is, as far as the passes tell
/// strings apart; `Generic` stands for every other kind.
#[derive(Debug, Clone, Copy, PartialEq, Eq, Structural)]
pub enum StringCategory {
    Url,
    ShellCommand,
    PersistencePath,
    AntiAnalysis,
    Generic,
}

} // verus!
