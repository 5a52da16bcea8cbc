//! What the sandbox pass reports, said of the imports and strings themselves.

use vstd::prelude::*;
use crate::context::{AnalysisContext, ExtractedString, found_strings, import_names};
use crate::detection_laws::imports_one_of;
use crate::detection_laws::{quotes_import, tally};
use crate::laws::{as_many_categories_as_techniques, gives_away, technique_reported_iff_given_away};
use crate::laws::techniques_unfolded;
use crate::pass::AnalysisPass;
use crate::passes::sandbox::{EvasionTechnique, SandboxEvasionPass, SandboxEvasionResult};
use crate::passes::sandbox::{TechniqueDef, categories_of, context_techniques};
use crate::passes::sandbox::{environment_technique, evasion_techniques, first_anti_analysis};
use crate::passes::sandbox::{import_technique, technique_table, technique_views, truncated};
use crate::passes::sandbox::{DEBUGGER_APIS, INTERACTION_APIS, RESOURCE_APIS, TIMING_APIS};
use crate::text::{lex_less, opt_str_view, str_views, views};
use crate::text_laws::{among, comes_first, order_is_by_first_difference};
use crate::types::{Severity, StringCategory};

verus! {

// ---------------------------------------------------------------------------
// The lists
// ---------------------------------------------------------------------------

/// The lists that the techniques look through.
pub proof fn technique_lists_are_complete()
    ensures
        str_views(TIMING_APIS@) == seq![
            "GetTickCount"@,
            "GetTickCount64"@,
            "QueryPerformanceCounter"@,
            "timeGetTime"@,
            "NtDelayExecution"@,
            "rdtsc"@,
        ],
        str_views(DEBUGGER_APIS@) == seq![
            "IsDebuggerPresent"@,
            "CheckRemoteDebuggerPresent"@,
            "NtQueryInformationProcess"@,
            "OutputDebugString"@,
            "NtSetInformationThread"@,
            "DebugActiveProcess"@,
        ],
        str_views(RESOURCE_APIS@) == seq![
            "GetSystemInfo"@,
            "GlobalMemoryStatusEx"@,
            "GetDiskFreeSpace"@,
            "GetSystemFirmwareTable"@,
        ],
        str_views(INTERACTION_APIS@) == seq![
            "GetCursorPos"@,
            "GetLastInputInfo"@,
            "GetForegroundWindow"@,
            "GetAsyncKeyState"@,
        ],
{
    assert(str_views(TIMING_APIS@) =~= seq![
        "GetTickCount"@,
        "GetTickCount64"@,
        "QueryPerformanceCounter"@,
        "timeGetTime"@,
        "NtDelayExecution"@,
        "rdtsc"@,
    ]);
    assert(str_views(DEBUGGER_APIS@) =~= seq![
        "IsDebuggerPresent"@,
        "CheckRemoteDebuggerPresent"@,
        "NtQueryInformationProcess"@,
        "OutputDebugString"@,
        "NtSetInformationThread"@,
        "DebugActiveProcess"@,
    ]);
    assert(str_views(RESOURCE_APIS@) =~= seq![
        "GetSystemInfo"@,
        "GlobalMemoryStatusEx"@,
        "GetDiskFreeSpace"@,
        "GetSystemFirmwareTable"@,
    ]);
    assert(str_views(INTERACTION_APIS@) =~= seq![
        "GetCursorPos"@,
        "GetLastInputInfo"@,
        "GetForegroundWindow"@,
        "GetAsyncKeyState"@,
    ]);
}

// ---------------------------------------------------------------------------
// Reports
// ---------------------------------------------------------------------------

/// The technique is the one of this name, category and severity.
pub open spec fn is_technique(
    t: EvasionTechnique,
    name: Seq<char>,
    category: Seq<char>,
    severity: Severity,
) -> bool {
    t.name@ == name && t.category@ == category && t.severity == severity
}

proof fn import_technique_says(def: TechniqueDef, functions: Seq<String>, list: Seq<Seq<char>>)
    requires
        str_views(def.apis@) == list,
    ensures
        ({
            let part = import_technique(def, views(functions));
            &&& part.len() == tally(imports_one_of(functions, list))
            &&& gives_away(def, views(functions)) <==> imports_one_of(functions, list)
            &&& part.len() == 1 ==> {
                &&& part[0].name == def.name@
                &&& part[0].category == def.category@
                &&& part[0].severity == def.severity
                &&& quotes_import(part[0].evidence, "import: "@, functions, list)
            }
        }),
{
    crate::detection_laws::import_found(functions, list);
    crate::laws::technique_reported_iff(def, views(functions));
}

/// What `evaluate` reports: a technique for each family of APIs of which there is an
/// import, with the first such import as its evidence, then one for the anti-analysis
/// string if there is one, quoted up to 60 characters, and nothing else; their number; and
/// their categories, each before the ones behind it.
pub proof fn evaluation_is_what_it_says(
    functions: Seq<String>,
    anti_analysis: Option<&str>,
    r: SandboxEvasionResult,
)
    requires
        r.reports(evasion_techniques(views(functions), opt_str_view(anti_analysis))),
    ensures
        ({
            let c0 = imports_one_of(functions, str_views(TIMING_APIS@));
            let c1 = imports_one_of(functions, str_views(DEBUGGER_APIS@));
            let c2 = imports_one_of(functions, str_views(RESOURCE_APIS@));
            let c3 = imports_one_of(functions, str_views(INTERACTION_APIS@));
            let c4 = anti_analysis is Some;
            let t = r.techniques@;
            let n1 = tally(c0) as int;
            let n2 = n1 + tally(c1);
            let n3 = n2 + tally(c2);
            let n4 = n3 + tally(c3);
            &&& t.len() == n4 + tally(c4)
            &&& r.technique_count == t.len()
            &&& c0 ==> {
                &&& is_technique(t[0], "Timing check"@, "timing"@, Severity::Medium)
                &&& quotes_import(t[0].evidence@, "import: "@, functions, str_views(TIMING_APIS@))
            }
            &&& c1 ==> {
                &&& is_technique(t[n1], "Debugger detection"@, "anti-debug"@, Severity::High)
                &&& quotes_import(t[n1].evidence@, "import: "@, functions, str_views(DEBUGGER_APIS@))
            }
            &&& c2 ==> {
                &&& is_technique(t[n2], "Resource / configuration check"@, "resource"@, Severity::Low)
                &&& quotes_import(t[n2].evidence@, "import: "@, functions, str_views(RESOURCE_APIS@))
            }
            &&& c3 ==> {
                &&& is_technique(t[n3], "User-interaction check"@, "interaction"@, Severity::Medium)
                &&& quotes_import(t[n3].evidence@, "import: "@, functions, str_views(INTERACTION_APIS@))
            }
            &&& c4 ==> is_technique(
                t[n4],
                "VM / environment fingerprinting"@,
                "environment"@,
                Severity::High,
            )
            &&& c4 && anti_analysis->0@.len() <= 60 ==> t[n4].evidence@ == "string: "@
                + anti_analysis->0@
            &&& c4 && anti_analysis->0@.len() > 60 ==> t[n4].evidence@ == "string: "@
                + anti_analysis->0@.subrange(0, 60) + seq!['.', '.', '.']
            &&& among("timing"@, r.categories@) <==> c0
            &&& among("anti-debug"@, r.categories@) <==> c1
            &&& among("resource"@, r.categories@) <==> c2
            &&& among("interaction"@, r.categories@) <==> c3
            &&& among("environment"@, r.categories@) <==> c4
            &&& r.categories@.len() == t.len()
            &&& forall|i: int, j: int|
                0 <= i < j < r.categories@.len() ==> #[trigger] comes_first(
                    r.categories@[i]@,
                    r.categories@[j]@,
                )
        }),
{
    technique_lists_are_complete();
    let d = technique_table();
    let names = views(functions);
    let anti = opt_str_view(anti_analysis);
    let all = evasion_techniques(names, anti);
    techniques_unfolded(names, anti);
    import_technique_says(d[0], functions, str_views(TIMING_APIS@));
    import_technique_says(d[1], functions, str_views(DEBUGGER_APIS@));
    import_technique_says(d[2], functions, str_views(RESOURCE_APIS@));
    import_technique_says(d[3], functions, str_views(INTERACTION_APIS@));
    let p0 = import_technique(d[0], names);
    let p1 = import_technique(d[1], names);
    let p2 = import_technique(d[2], names);
    let p3 = import_technique(d[3], names);
    let p4 = environment_technique(anti);
    let t = r.techniques@;
    assert(technique_views(t).len() == t.len());
    assert forall|k: int| 0 <= k < t.len() implies #[trigger] t[k]@ == all[k] by {
        assert(technique_views(t)[k] == all[k]);
    }
    let n1 = p0.len() as int;
    let n2 = n1 + p1.len();
    let n3 = n2 + p2.len();
    let n4 = n3 + p3.len();
    if p0.len() == 1 {
        assert(t[0]@ == p0[0]);
    }
    if p1.len() == 1 {
        assert(t[n1]@ == p1[0]);
    }
    if p2.len() == 1 {
        assert(t[n2]@ == p2[0]);
    }
    if p3.len() == 1 {
        assert(t[n3]@ == p3[0]);
    }
    if anti_analysis is Some {
        let value = anti_analysis->0@;
        assert(t[n4]@ == p4[0]);
        reveal_strlit("...");
        assert("..."@ =~= seq!['.', '.', '.']);
        if value.len() > 60 {
            assert(value.take(60) =~= value.subrange(0, 60));
            assert("string: "@ + (value.take(60) + "..."@) =~= "string: "@ + value.subrange(0, 60)
                + seq!['.', '.', '.']);
        }
    }
    as_many_categories_as_techniques(r, names, anti);
    categories_tell(r, functions, anti);
}

proof fn categories_tell(
    r: SandboxEvasionResult,
    functions: Seq<String>,
    anti_analysis: Option<Seq<char>>,
)
    requires
        r.reports(evasion_techniques(views(functions), anti_analysis)),
    ensures
        among("timing"@, r.categories@) <==> imports_one_of(
            functions,
            str_views(TIMING_APIS@),
        ),
        among("anti-debug"@, r.categories@) <==> imports_one_of(
            functions,
            str_views(DEBUGGER_APIS@),
        ),
        among("resource"@, r.categories@) <==> imports_one_of(
            functions,
            str_views(RESOURCE_APIS@),
        ),
        among("interaction"@, r.categories@) <==> imports_one_of(
            functions,
            str_views(INTERACTION_APIS@),
        ),
        among("environment"@, r.categories@) <==> anti_analysis is Some,
        forall|i: int, j: int|
            0 <= i < j < r.categories@.len() ==> #[trigger] comes_first(
                r.categories@[i]@,
                r.categories@[j]@,
            ),
{
    let names = views(functions);
    let d = technique_table();
    technique_lists_are_complete();
    import_technique_says(d[0], functions, str_views(TIMING_APIS@));
    import_technique_says(d[1], functions, str_views(DEBUGGER_APIS@));
    import_technique_says(d[2], functions, str_views(RESOURCE_APIS@));
    import_technique_says(d[3], functions, str_views(INTERACTION_APIS@));
    technique_reported_iff_given_away(names, anti_analysis);
    let of = categories_of(evasion_techniques(names, anti_analysis));
    let sorted = views(r.categories@);
    assert forall|c: Seq<char>| #[trigger] among(c, r.categories@) <==> of.contains(c) by {
        crate::text_laws::text_among_views(c, r.categories@);
        assert(sorted.contains(c) <==> of.contains(c));
    }
    assert(gives_away(d[0], names) <==> of.contains(d[0].category@));
    assert(gives_away(d[1], names) <==> of.contains(d[1].category@));
    assert(gives_away(d[2], names) <==> of.contains(d[2].category@));
    assert(gives_away(d[3], names) <==> of.contains(d[3].category@));
    assert forall|i: int, j: int| 0 <= i < j < r.categories@.len() implies #[trigger] comes_first(
        r.categories@[i]@,
        r.categories@[j]@,
    ) by {
        assert(lex_less(sorted[i], sorted[j]));
        order_is_by_first_difference(sorted[i], sorted[j]);
    }
}

// ---------------------------------------------------------------------------
// Contexts
// ---------------------------------------------------------------------------

/// The string at `i` is an anti-analysis string, and none before it is.
pub open spec fn is_first_of_kind(strings: Seq<ExtractedString>, i: int) -> bool {
    &&& 0 <= i < strings.len()
    &&& strings[i].category == StringCategory::AntiAnalysis
    &&& forall|k: int|
        0 <= k < i ==> (#[trigger] strings[k]).category != StringCategory::AntiAnalysis
}

/// The anti-analysis value of a list of strings is the value of the first string of that
/// category; there is none exactly when no string is of it.
pub proof fn anti_analysis_value_is_first(strings: Seq<ExtractedString>)
    ensures
        first_anti_analysis(strings) is None <==> (forall|i: int|
            0 <= i < strings.len() ==> (#[trigger] strings[i]).category
                != StringCategory::AntiAnalysis),
        first_anti_analysis(strings) matches Some(v) ==> exists|i: int|
            {
                &&& #[trigger] is_first_of_kind(strings, i)
                &&& strings[i].value@ == v
            },
    decreases strings.len(),
{
    if strings.len() > 0 {
        let rest = strings.drop_first();
        anti_analysis_value_is_first(rest);
        if strings[0].category == StringCategory::AntiAnalysis {
            assert(is_first_of_kind(strings, 0));
        } else if first_anti_analysis(rest) is None {
            assert forall|i: int| 0 <= i < strings.len() implies (#[trigger] strings[i]).category
                != StringCategory::AntiAnalysis by {
                if i > 0 {
                    assert(rest[i - 1] == strings[i]);
                }
            }
        } else {
            let v = first_anti_analysis(rest)->0;
            let i = choose|i: int| #[trigger] is_first_of_kind(rest, i) && rest[i].value@ == v;
            assert(strings[i + 1] == rest[i]);
            assert forall|k: int| 0 <= k < i + 1 implies (#[trigger] strings[k]).category
                != StringCategory::AntiAnalysis by {
                if k > 0 {
                    assert(rest[k - 1] == strings[k]);
                }
            }
            assert(is_first_of_kind(strings, i + 1));
        }
    }
}

/// What is reported of a context is what `evaluate` reports of the functions that it
/// imports and of the value of the first anti-analysis string that it holds. A missing
/// result holds nothing.
pub proof fn detection_is_evaluation(
    ctx: AnalysisContext,
    r: SandboxEvasionResult,
    functions: Seq<String>,
    anti_analysis: Option<&str>,
)
    requires
        r.reports(context_techniques(ctx)),
        ctx.import_result is None ==> functions.len() == 0,
        ctx.import_result matches Some(i) ==> functions.len() == i.imports@.len() && forall|k: int|
            0 <= k < functions.len() ==> #[trigger] functions[k]@ == i.imports@[k].function@,
        anti_analysis is None && ctx.string_result is Some ==> forall|k: int|
            0 <= k < ctx.string_result->0.strings@.len() ==> (
            #[trigger] ctx.string_result->0.strings@[k]).category != StringCategory::AntiAnalysis,
        anti_analysis matches Some(v) ==> {
            &&& ctx.string_result is Some
            &&& exists|k: int| #[trigger]
                is_first_of_kind(ctx.string_result->0.strings@, k)
                    && ctx.string_result->0.strings@[k].value@ == v@
        },
    ensures
        r.reports(evasion_techniques(views(functions), opt_str_view(anti_analysis))),
{
    let strings = found_strings(ctx.string_result);
    anti_analysis_value_is_first(strings);
    let v = first_anti_analysis(strings);
    if v is Some {
        let i = choose|i: int|
            #[trigger] is_first_of_kind(strings, i) && strings[i].value@ == v->0;
        assert(strings[i].category == StringCategory::AntiAnalysis);
        if anti_analysis is Some {
            let j = choose|j: int|
                #[trigger] is_first_of_kind(strings, j) && strings[j].value@ == anti_analysis->0@;
            assert(strings[j].category == StringCategory::AntiAnalysis);
            assert(i == j);
        }
    } else if anti_analysis is Some {
        let j = choose|j: int|
            #[trigger] is_first_of_kind(strings, j) && strings[j].value@ == anti_analysis->0@;
        assert(strings[j].category == StringCategory::AntiAnalysis);
    }
    assert(v == opt_str_view(anti_analysis));
    assert(views(functions) =~= import_names(ctx.import_result));
}

/// A run of the pass leaves a report of the context, and everything else as it was.
pub proof fn run_reports_and_keeps(before: AnalysisContext, after: AnalysisContext)
    requires
        SandboxEvasionPass.outcome(before, after),
    ensures
        after.sandbox_result matches Some(r) && r.reports(context_techniques(before)),
        after.import_result == before.import_result,
        after.string_result == before.string_result,
        after.entropy_result == before.entropy_result,
        after.behavior_result == before.behavior_result,
        SandboxEvasionPass.pass_name() == "sandbox"@,
        SandboxEvasionPass.pass_dependencies() == seq!["imports"@, "strings"@],
{
}

/// A text that is cut has its first `max` characters and three dots behind them; one that
/// fits is left as it is.
pub proof fn truncation_is_head_and_dots(s: Seq<char>, max: nat)
    ensures
        s.len() <= max ==> truncated(s, max) == s,
        s.len() > max ==> {
            &&& truncated(s, max).len() == max + 3
            &&& forall|i: int| 0 <= i < max ==> #[trigger] truncated(s, max)[i] == s[i]
            &&& forall|i: int| max <= i < max + 3 ==> #[trigger] truncated(s, max)[i] == '.'
        },
{
    reveal_strlit("...");
    assert("..."@ =~= seq!['.', '.', '.']);
}

} // verus!
