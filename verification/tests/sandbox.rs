use axumortem_engine::context::{
    AnalysisContext, ExtractedString, ImportEntry, ImportResult, StringResult,
};
use axumortem_engine::pass::AnalysisPass;
use axumortem_engine::passes::behavior::BehaviorPass;
use axumortem_engine::passes::sandbox::{
    detect_evasion, eq_ignore_case_aw, evaluate, truncate, SandboxEvasionPass,
};
use axumortem_engine::types::{Severity, StringCategory};

fn funcs(names: &[&str]) -> Vec<String> {
    names.iter().map(|s| s.to_string()).collect()
}

fn context(functions: &[&str], strings: &[(&str, StringCategory)]) -> AnalysisContext {
    AnalysisContext {
        import_result: Some(ImportResult {
            imports: functions
                .iter()
                .map(|f| ImportEntry { function: f.to_string() })
                .collect(),
        }),
        string_result: Some(StringResult {
            strings: strings
                .iter()
                .map(|(v, c)| ExtractedString { value: v.to_string(), category: *c })
                .collect(),
        }),
        entropy_result: None,
        behavior_result: None,
        sandbox_result: None,
    }
}

#[test]
fn detects_debugger_and_timing() {
    let result = evaluate(
        &funcs(&["IsDebuggerPresent", "GetTickCount", "printf"]),
        None,
    );
    assert_eq!(result.technique_count, 2);
    assert!(result.categories.contains(&"anti-debug".to_string()));
    assert!(result.categories.contains(&"timing".to_string()));
}

#[test]
fn handles_aw_suffix() {
    let result = evaluate(&funcs(&["OutputDebugStringW"]), None);
    assert_eq!(result.technique_count, 1);
    assert_eq!(result.techniques[0].category, "anti-debug");
}

#[test]
fn anti_analysis_string_is_environment_technique() {
    let result = evaluate(&funcs(&["printf"]), Some("VMwareServiceHelper"));
    assert_eq!(result.technique_count, 1);
    assert_eq!(result.techniques[0].category, "environment");
    assert_eq!(result.techniques[0].severity, Severity::High);
}

#[test]
fn benign_binary_has_no_techniques() {
    let result = evaluate(&funcs(&["printf", "malloc", "free"]), None);
    assert_eq!(result.technique_count, 0);
    assert!(result.categories.is_empty());
}

#[test]
fn every_technique_at_once() {
    let result = evaluate(
        &funcs(&[
            "getasynckeystateW", "GetSystemInfo", "debugactiveprocess", "rdtsc", "GetTickCount",
        ]),
        Some("vbox"),
    );
    let seen: Vec<(&str, &str, &str, Severity)> = result
        .techniques
        .iter()
        .map(|t| (t.name.as_str(), t.category.as_str(), t.evidence.as_str(), t.severity))
        .collect();
    assert_eq!(
        seen,
        vec![
            ("Timing check", "timing", "import: rdtsc", Severity::Medium),
            ("Debugger detection", "anti-debug", "import: debugactiveprocess", Severity::High),
            (
                "Resource / configuration check",
                "resource",
                "import: GetSystemInfo",
                Severity::Low
            ),
            (
                "User-interaction check",
                "interaction",
                "import: getasynckeystateW",
                Severity::Medium
            ),
            (
                "VM / environment fingerprinting",
                "environment",
                "string: vbox",
                Severity::High
            ),
        ]
    );
    assert_eq!(result.technique_count, 5);
    assert_eq!(
        result.categories,
        vec!["anti-debug", "environment", "interaction", "resource", "timing"]
    );
}

#[test]
fn every_listed_api_gives_its_technique_away() {
    for (category, apis) in [
        (
            "timing",
            vec![
                "GetTickCount", "GetTickCount64", "QueryPerformanceCounter", "timeGetTime",
                "NtDelayExecution", "rdtsc",
            ],
        ),
        (
            "anti-debug",
            vec![
                "IsDebuggerPresent", "CheckRemoteDebuggerPresent", "NtQueryInformationProcess",
                "OutputDebugString", "NtSetInformationThread", "DebugActiveProcess",
            ],
        ),
        (
            "resource",
            vec![
                "GetSystemInfo", "GlobalMemoryStatusEx", "GetDiskFreeSpace",
                "GetSystemFirmwareTable",
            ],
        ),
        (
            "interaction",
            vec!["GetCursorPos", "GetLastInputInfo", "GetForegroundWindow", "GetAsyncKeyState"],
        ),
    ] {
        for api in apis {
            let result = evaluate(&funcs(&["x", api]), None);
            assert_eq!(result.categories, vec![category]);
            assert_eq!(result.techniques[0].evidence, format!("import: {}", api));
        }
    }
}

#[test]
fn comparison_ignores_case_and_variant() {
    assert!(eq_ignore_case_aw("ISDEBUGGERPRESENT", "IsDebuggerPresent"));
    assert!(eq_ignore_case_aw("OutputDebugStringA", "OutputDebugString"));
    assert!(!eq_ignore_case_aw("OutputDebugStringX", "OutputDebugString"));
    assert!(!eq_ignore_case_aw("GetTickCount6", "GetTickCount64"));
    assert!(eq_ignore_case_aw("ÄÖÜ", "äöü"));
}

#[test]
fn truncation_counts_characters() {
    assert_eq!(truncate("abc", 3), "abc");
    assert_eq!(truncate("abcd", 3), "abc...");
    assert_eq!(truncate("", 0), "");
    assert_eq!(truncate("x", 0), "...");
    assert_eq!(truncate("äöü€", 4), "äöü€");
    assert_eq!(truncate("äöü€x", 4), "äöü€...");
}

#[test]
fn long_evidence_is_cut() {
    let sixty = "a".repeat(60);
    let result = evaluate(&[], Some(sixty.as_str()));
    assert_eq!(result.techniques[0].evidence, format!("string: {}", sixty));
    let longer = "a".repeat(61);
    let result = evaluate(&[], Some(longer.as_str()));
    assert_eq!(result.techniques[0].evidence, format!("string: {}...", sixty));
}

#[test]
fn first_anti_analysis_string_of_a_context_is_taken() {
    let ctx = context(
        &["GetCursorPos"],
        &[
            ("hello", StringCategory::Generic),
            ("VMware Tools", StringCategory::AntiAnalysis),
            ("vbox", StringCategory::AntiAnalysis),
        ],
    );
    let result = detect_evasion(&ctx);
    assert_eq!(result.technique_count, 2);
    assert_eq!(result.techniques[1].evidence, "string: VMware Tools");
    assert_eq!(result.categories, vec!["environment", "interaction"]);
}

#[test]
fn empty_context_shows_nothing() {
    let ctx = AnalysisContext {
        import_result: None,
        string_result: None,
        entropy_result: None,
        behavior_result: None,
        sandbox_result: None,
    };
    let result = detect_evasion(&ctx);
    assert_eq!(result.technique_count, 0);
    assert!(result.techniques.is_empty());
    assert!(result.categories.is_empty());
}

#[test]
fn passes_run_in_either_order() {
    let make = || {
        context(
            &["ptrace", "dlsym", "IsDebuggerPresent"],
            &[("/dev/mem", StringCategory::Generic), ("qemu", StringCategory::AntiAnalysis)],
        )
    };
    let pass = SandboxEvasionPass;
    assert_eq!(pass.name(), "sandbox");
    assert_eq!(pass.dependencies(), &["imports", "strings"]);
    let mut a = make();
    assert!(pass.run(&mut a).is_ok());
    assert!(a.behavior_result.is_none());
    assert!(BehaviorPass.run(&mut a).is_ok());
    let mut b = make();
    assert!(BehaviorPass.run(&mut b).is_ok());
    assert!(pass.run(&mut b).is_ok());
    let (x, y) = (a.sandbox_result.expect("set"), b.sandbox_result.expect("set"));
    assert_eq!(x.technique_count, 2);
    assert_eq!(x.categories, y.categories);
    let (p, q) = (a.behavior_result.expect("set"), b.behavior_result.expect("set"));
    assert_eq!(p.patterns.len(), 1);
    assert_eq!(p.patterns[0].name, q.patterns[0].name);
}

#[test]
fn further_imports_keep_the_techniques() {
    let few = evaluate(&funcs(&["GetCursorPos", "rdtsc"]), Some("qemu"));
    let all = evaluate(
        &funcs(&["GetCursorPos", "rdtsc", "GetTickCount", "GetSystemInfo"]),
        Some("qemu"),
    );
    assert_eq!(few.categories, vec!["environment", "interaction", "timing"]);
    assert_eq!(all.categories, vec!["environment", "interaction", "resource", "timing"]);
    for t in &few.techniques {
        assert!(all
            .techniques
            .iter()
            .any(|u| u.name == t.name && u.evidence == t.evidence && u.severity == t.severity));
    }
}
