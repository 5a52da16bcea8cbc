//! The interface between the engine and its passes.

use vstd::prelude::*;
use crate::context::AnalysisContext;
use crate::error::EngineError;
use crate::text::str_views;

verus! {

/// Marks the pass types of this crate.
pub trait Sealed {

}

/// One analysis pass: reads the results of the passes it depends on from the
/// context and leaves its own result there.
pub trait AnalysisPass: Sealed {
    /// The name other passes depend on this one by.
    spec fn pass_name(&self) -> Seq<char>;

    /// The names of the passes whose results this one reads.
    spec fn pass_dependencies(&self) -> Seq<Seq<char>>;

    /// How the context after a successful run relates to the one before it.
    spec fn outcome(&self, before: AnalysisContext, after: AnalysisContext) -> bool;

    fn name(&self) -> (r: &'static str)
        ensures
            r@ == self.pass_name(),
    ;

    fn dependencies(&self) -> (r: &[&'static str])
        ensures
            str_views(r@) == self.pass_dependencies(),
    ;

    fn run(&self, ctx: &mut AnalysisContext) -> (r: Result<(), EngineError>)
        ensures
            r is Ok ==> self.outcome(*old(ctx), *final(ctx)),
    ;
}

} // verus!
