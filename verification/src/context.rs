//! What the passes share: the results of the earlier passes, as far as the later
//! ones read them, and the results the later ones leave.

use vstd::prelude::*;
use crate::passes::behavior::BehaviorResult;
use crate::passes::sandbox::SandboxEvasionResult;
use crate::text::{views, views_push};
use crate::types::StringCategory;

verus! {

/// One imported function.
#[derive(Debug)]
pub struct ImportEntry {
    pub function: String,
}

/// What the imports pass found.
#[derive(Debug)]
pub struct ImportResult {
    pub imports: Vec<ImportEntry>,
}

/// One string found in the binary.
#[derive(Debug)]
pub struct ExtractedString {
    pub value: String,
    pub category: StringCategory,
}

/// What the strings pass found.
#[derive(Debug)]
pub struct StringResult {
    pub strings: Vec<ExtractedString>,
}

/// What the entropy pass found. The overall entropy, in bits per byte, is a
/// double-precision number, held here by its IEEE 754 representation.
#[derive(Debug)]
pub struct EntropyResult {
    pub packing_detected: bool,
    pub overall_entropy_bits: u64,
}

/// The state that passes read from and write to.
#[derive(Debug)]
pub struct AnalysisContext {
    pub import_result: Option<ImportResult>,
    pub string_result: Option<StringResult>,
    pub entropy_result: Option<EntropyResult>,
    pub behavior_result: Option<BehaviorResult>,
    pub sandbox_result: Option<SandboxEvasionResult>,
}

/// The names of the imported functions, in order; none without an imports result.
pub open spec fn import_names(r: Option<ImportResult>) -> Seq<Seq<char>> {
    match r {
        Some(i) => i.imports@.map_values(|e: ImportEntry| e.function@),
        None => seq![],
    }
}

/// The strings found, in order; none without a strings result.
pub open spec fn found_strings(r: Option<StringResult>) -> Seq<ExtractedString> {
    match r {
        Some(s) => s.strings@,
        None => seq![],
    }
}

/// The names of the imported functions, in order.
pub(crate) fn import_function_names(ctx: &AnalysisContext) -> (r: Vec<String>)
    ensures
        views(r@) == import_names(ctx.import_result),
{
    let mut names: Vec<String> = Vec::new();
    if let Some(result) = &ctx.import_result {
        let mut i: usize = 0;
        while i < result.imports.len()
            invariant
                ctx.import_result == Some(*result),
                i <= result.imports@.len(),
                views(names@) == import_names(ctx.import_result).take(i as int),
            decreases result.imports@.len() - i,
        {
            proof {
                let n = import_names(ctx.import_result);
                views_push(names@, result.imports@[i as int].function);
                assert(n.take(i + 1) =~= n.take(i as int).push(n[i as int]));
            }
            names.push(result.imports[i].function.clone());
            i += 1;
        }
    }
    assert(views(names@) =~= import_names(ctx.import_result));
    names
}

} // verus!
