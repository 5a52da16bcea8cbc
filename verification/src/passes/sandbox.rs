//! Sandbox and analysis-evasion detection.
//!
//! Malware often checks whether it runs inside a sandbox or under a debugger and
//! stays dormant if so. This pass looks for the classic families of such checks:
//! timing, debugger detection, environment fingerprinting, and checks of resources
//! or user interaction. Suspicious imports and anti-analysis strings are reported
//! as techniques, each with its evidence and a category, along with their number
//! and the list of categories.

use vstd::prelude::*;
use crate::context::{AnalysisContext, ExtractedString, found_strings, import_names};
use crate::context::import_function_names;
use crate::error::EngineError;
use crate::matching::{api_match, first_import, first_matching, names_api};
use crate::pass::{AnalysisPass, Sealed};
use crate::text::{is_sorted_unique, opt_str_view, sorted_unique, str_views, views, views_push};
use crate::types::{Severity, StringCategory};

verus! {

/// The findings of the pass.
#[derive(Debug, Clone)]
pub struct SandboxEvasionResult {
    pub techniques: Vec<EvasionTechnique>,
    pub technique_count: usize,
    pub categories: Vec<String>,
}

/// One detected technique.
#[derive(Debug, Clone)]
pub struct EvasionTechnique {
    pub name: String,
    pub category: String,
    pub evidence: String,
    pub severity: Severity,
}

/// A technique as text.
#[verifier::ext_equal]
pub struct TechniqueView {
    pub name: Seq<char>,
    pub category: Seq<char>,
    pub evidence: Seq<char>,
    pub severity: Severity,
}

impl View for EvasionTechnique {
    type V = TechniqueView;

    open spec fn view(&self) -> TechniqueView {
        TechniqueView {
            name: self.name@,
            category: self.category@,
            evidence: self.evidence@,
            severity: self.severity,
        }
    }
}

/// The texts of a list of techniques.
pub open spec fn technique_views(v: Seq<EvasionTechnique>) -> Seq<TechniqueView> {
    v.map_values(|t: EvasionTechnique| t@)
}

/// The categories of a list of techniques, one for each.
pub open spec fn categories_of(v: Seq<TechniqueView>) -> Seq<Seq<char>> {
    v.map_values(|t: TechniqueView| t.category)
}

/// A technique that shows in the imports: any one of `apis` gives it away.
pub struct TechniqueDef {
    pub name: &'static str,
    pub category: &'static str,
    pub apis: &'static [&'static str],
    pub severity: Severity,
}

/// APIs that measure or spend time.
pub const TIMING_APIS: [&'static str; 6] = [
    "GetTickCount",
    "GetTickCount64",
    "QueryPerformanceCounter",
    "timeGetTime",
    "NtDelayExecution",
    "rdtsc",
];

/// APIs that notice or disturb a debugger.
pub const DEBUGGER_APIS: [&'static str; 6] = [
    "IsDebuggerPresent",
    "CheckRemoteDebuggerPresent",
    "NtQueryInformationProcess",
    "OutputDebugString",
    "NtSetInformationThread",
    "DebugActiveProcess",
];

/// APIs that size up the machine.
pub const RESOURCE_APIS: [&'static str; 4] = [
    "GetSystemInfo",
    "GlobalMemoryStatusEx",
    "GetDiskFreeSpace",
    "GetSystemFirmwareTable",
];

/// APIs that notice a user.
pub const INTERACTION_APIS: [&'static str; 4] = [
    "GetCursorPos",
    "GetLastInputInfo",
    "GetForegroundWindow",
    "GetAsyncKeyState",
];

/// How many characters of an anti-analysis string are quoted as evidence.
pub const EVIDENCE_LIMIT: usize = 60;

/// The techniques that show in the imports, in the order in which they are reported.
pub open spec fn technique_table() -> Seq<TechniqueDef> {
    seq![
        TechniqueDef {
            name: "Timing check",
            category: "timing",
            apis: &TIMING_APIS,
            severity: Severity::Medium,
        },
        TechniqueDef {
            name: "Debugger detection",
            category: "anti-debug",
            apis: &DEBUGGER_APIS,
            severity: Severity::High,
        },
        TechniqueDef {
            name: "Resource / configuration check",
            category: "resource",
            apis: &RESOURCE_APIS,
            severity: Severity::Low,
        },
        TechniqueDef {
            name: "User-interaction check",
            category: "interaction",
            apis: &INTERACTION_APIS,
            severity: Severity::Medium,
        },
    ]
}

/// The table as a value.
fn techniques() -> (r: Vec<TechniqueDef>)
    ensures
        r@ == technique_table(),
{
    vec![
        TechniqueDef {
            name: "Timing check",
            category: "timing",
            apis: &TIMING_APIS,
            severity: Severity::Medium,
        },
        TechniqueDef {
            name: "Debugger detection",
            category: "anti-debug",
            apis: &DEBUGGER_APIS,
            severity: Severity::High,
        },
        TechniqueDef {
            name: "Resource / configuration check",
            category: "resource",
            apis: &RESOURCE_APIS,
            severity: Severity::Low,
        },
        TechniqueDef {
            name: "User-interaction check",
            category: "interaction",
            apis: &INTERACTION_APIS,
            severity: Severity::Medium,
        },
    ]
}

/// `s` in at most `max` characters: whole if it is short enough, else its first `max`
/// characters with an ellipsis behind them.
pub open spec fn truncated(s: Seq<char>, max: nat) -> Seq<char> {
    if s.len() <= max {
        s
    } else {
        s.take(max as int) + "..."@
    }
}

/// What `def` reports of the imports: the first import that is one of its APIs, if any.
pub open spec fn import_technique(def: TechniqueDef, functions: Seq<Seq<char>>) -> Seq<
    TechniqueView,
> {
    match first_import(functions, str_views(def.apis@)) {
        Some(api) => seq![
            TechniqueView {
                name: def.name@,
                category: def.category@,
                evidence: "import: "@ + api,
                severity: def.severity,
            },
        ],
        None => seq![],
    }
}

/// What the definitions report of the imports, in their order.
pub open spec fn import_techniques(defs: Seq<TechniqueDef>, functions: Seq<Seq<char>>) -> Seq<
    TechniqueView,
>
    decreases defs.len(),
{
    if defs.len() == 0 {
        seq![]
    } else {
        import_techniques(defs.drop_last(), functions) + import_technique(defs.last(), functions)
    }
}

/// What an anti-analysis string reports, if there is one.
pub open spec fn environment_technique(anti_analysis: Option<Seq<char>>) -> Seq<TechniqueView> {
    match anti_analysis {
        Some(value) => seq![
            TechniqueView {
                name: "VM / environment fingerprinting"@,
                category: "environment"@,
                evidence: "string: "@ + truncated(value, EVIDENCE_LIMIT as nat),
                severity: Severity::High,
            },
        ],
        None => seq![],
    }
}

/// Everything that is reported of the imports and an anti-analysis string.
pub open spec fn evasion_techniques(
    functions: Seq<Seq<char>>,
    anti_analysis: Option<Seq<char>>,
) -> Seq<TechniqueView> {
    import_techniques(technique_table(), functions) + environment_technique(anti_analysis)
}

impl SandboxEvasionResult {
    /// The result reports exactly `techniques`, with their number, and their categories
    /// in lexicographic order, each once.
    pub open spec fn reports(self, techniques: Seq<TechniqueView>) -> bool {
        &&& technique_views(self.techniques@) == techniques
        &&& self.technique_count == techniques.len()
        &&& is_sorted_unique(views(self.categories@), categories_of(techniques))
    }
}

/// The value of the first string that is an anti-analysis string.
pub open spec fn first_anti_analysis(strings: Seq<ExtractedString>) -> Option<Seq<char>>
    decreases strings.len(),
{
    if strings.len() == 0 {
        None
    } else if strings[0].category == StringCategory::AntiAnalysis {
        Some(strings[0].value@)
    } else {
        first_anti_analysis(strings.drop_first())
    }
}

/// Everything that is reported of a context.
pub open spec fn context_techniques(ctx: AnalysisContext) -> Seq<TechniqueView> {
    evasion_techniques(
        import_names(ctx.import_result),
        first_anti_analysis(found_strings(ctx.string_result)),
    )
}

/// Whether an import is an API, letter case and one trailing `A` or `W` aside.
pub fn eq_ignore_case_aw(import_name: &str, api: &str) -> (r: bool)
    ensures
        r == api_match(import_name@, api@),
{
    names_api(import_name, api)
}

/// Cuts `s` to `max` characters, with an ellipsis where anything was cut.
pub fn truncate(s: &str, max: usize) -> (r: String)
    ensures
        r@ == truncated(s@, max as nat),
{
    if s.unicode_len() <= max {
        s.to_string()
    } else {
        assert(s@.subrange(0, max as int) =~= s@.take(max as int));
        s.substring_char(0, max).to_string().concat("...")
    }
}

/// The techniques that a list of import names and an optional anti-analysis string give
/// away.
pub fn evaluate(functions: &[String], anti_analysis: Option<&str>) -> (r: SandboxEvasionResult)
    ensures
        r.reports(evasion_techniques(views(functions@), opt_str_view(anti_analysis))),
{
    let defs = techniques();
    let ghost names = views(functions@);
    let mut found: Vec<EvasionTechnique> = Vec::new();
    let mut i: usize = 0;
    assert(technique_views(found@) =~= import_techniques(defs@.take(0), names));
    while i < defs.len()
        invariant
            names == views(functions@),
            i <= defs@.len(),
            technique_views(found@) == import_techniques(defs@.take(i as int), names),
        decreases defs@.len() - i,
    {
        let def = &defs[i];
        let ghost before = technique_views(found@);
        let hit = first_matching(functions, def.apis);
        if let Some(api) = hit {
            found.push(
                EvasionTechnique {
                    name: def.name.to_string(),
                    category: def.category.to_string(),
                    evidence: "import: ".to_string().concat(api.as_str()),
                    severity: def.severity,
                },
            );
        }
        proof {
            assert(defs@.take(i + 1).drop_last() =~= defs@.take(i as int));
            assert(technique_views(found@) =~= before + import_technique(*def, names));
        }
        i += 1;
    }
    assert(defs@.take(defs@.len() as int) =~= technique_table());
    let ghost before = technique_views(found@);
    if let Some(value) = anti_analysis {
        found.push(
            EvasionTechnique {
                name: "VM / environment fingerprinting".to_string(),
                category: "environment".to_string(),
                evidence: "string: ".to_string().concat(truncate(value, EVIDENCE_LIMIT).as_str()),
                severity: Severity::High,
            },
        );
    }
    assert(technique_views(found@) =~= before + environment_technique(
        opt_str_view(anti_analysis),
    ));
    let mut all: Vec<String> = Vec::new();
    let mut k: usize = 0;
    while k < found.len()
        invariant
            k <= found@.len(),
            views(all@) == categories_of(technique_views(found@)).take(k as int),
        decreases found@.len() - k,
    {
        proof {
            let c = categories_of(technique_views(found@));
            views_push(all@, found@[k as int].category);
            assert(c.take(k + 1) =~= c.take(k as int).push(c[k as int]));
        }
        all.push(found[k].category.clone());
        k += 1;
    }
    assert(views(all@) =~= categories_of(technique_views(found@)));
    SandboxEvasionResult {
        technique_count: found.len(),
        categories: sorted_unique(&all),
        techniques: found,
    }
}

/// The value of the first anti-analysis string.
fn anti_analysis_value(strings: &Vec<ExtractedString>) -> (r: Option<&str>)
    ensures
        opt_str_view(r) == first_anti_analysis(strings@),
{
    let mut i: usize = 0;
    assert(strings@.skip(0) =~= strings@);
    while i < strings.len()
        invariant
            i <= strings@.len(),
            first_anti_analysis(strings@) == first_anti_analysis(strings@.skip(i as int)),
        decreases strings@.len() - i,
    {
        if strings[i].category == StringCategory::AntiAnalysis {
            return Some(strings[i].value.as_str());
        }
        assert(strings@.skip(i as int).drop_first() =~= strings@.skip(i + 1));
        i += 1;
    }
    None
}

/// The techniques that the imports and strings of a context give away.
pub fn detect_evasion(ctx: &AnalysisContext) -> (r: SandboxEvasionResult)
    ensures
        r.reports(context_techniques(*ctx)),
{
    let functions = import_function_names(ctx);
    let anti_analysis: Option<&str> = match &ctx.string_result {
        Some(result) => anti_analysis_value(&result.strings),
        None => None,
    };
    evaluate(functions.as_slice(), anti_analysis)
}

/// The pass.
pub struct SandboxEvasionPass;

/// The passes whose results this one reads.
pub const DEPENDENCIES: [&'static str; 2] = ["imports", "strings"];

impl Sealed for SandboxEvasionPass {

}

impl AnalysisPass for SandboxEvasionPass {
    open spec fn pass_name(&self) -> Seq<char> {
        "sandbox"@
    }

    open spec fn pass_dependencies(&self) -> Seq<Seq<char>> {
        seq!["imports"@, "strings"@]
    }

    /// The result of the pass is in place, and nothing else has changed.
    open spec fn outcome(&self, before: AnalysisContext, after: AnalysisContext) -> bool {
        &&& after.sandbox_result matches Some(r)
        &&& r.reports(context_techniques(before))
        &&& after.import_result == before.import_result
        &&& after.string_result == before.string_result
        &&& after.entropy_result == before.entropy_result
        &&& after.behavior_result == before.behavior_result
    }

    fn name(&self) -> (r: &'static str) {
        "sandbox"
    }

    fn dependencies(&self) -> (r: &[&'static str]) {
        let r: &[&'static str] = &DEPENDENCIES;
        assert(str_views(r@) =~= seq!["imports"@, "strings"@]);
        r
    }

    fn run(&self, ctx: &mut AnalysisContext) -> (r: Result<(), EngineError>)
        ensures
            r is Ok,
    {
        ctx.sandbox_result = Some(detect_evasion(ctx));
        Ok(())
    }
}

} // verus!
