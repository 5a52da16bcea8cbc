use axumortem_engine::context::{
    AnalysisContext, EntropyResult, ExtractedString, ImportEntry, ImportResult, StringResult,
};
use axumortem_engine::pass::AnalysisPass;
use axumortem_engine::passes::behavior::{
    api_matches, share_in_hundredths, BehaviorPass, BehaviorPattern, Signals, MIN_INDICATORS,
    SHARE_LIMIT,
};
use axumortem_engine::types::{Severity, StringCategory};

fn signals(
    functions: &[&str],
    strings: &[&str],
    categories: &[StringCategory],
    high_entropy: bool,
) -> Signals {
    Signals {
        functions: functions.iter().map(|s| s.to_string()).collect(),
        string_values: strings.iter().map(|s| s.to_lowercase()).collect(),
        categories: categories.to_vec(),
        high_entropy,
        import_count: functions.len(),
    }
}

fn find<'a>(patterns: &'a [BehaviorPattern], name: &str) -> Option<&'a BehaviorPattern> {
    patterns.iter().find(|p| p.name == name)
}

fn context(
    functions: &[&str],
    strings: &[(&str, StringCategory)],
    packing_detected: bool,
    overall_entropy: f64,
) -> AnalysisContext {
    AnalysisContext {
        import_result: Some(ImportResult {
            imports: functions
                .iter()
                .map(|f| ImportEntry { function: f.to_string() })
                .collect(),
        }),
        string_result: Some(StringResult {
            strings: strings
                .iter()
                .map(|(v, c)| ExtractedString { value: v.to_string(), category: *c })
                .collect(),
        }),
        entropy_result: Some(EntropyResult {
            packing_detected,
            overall_entropy_bits: overall_entropy.to_bits(),
        }),
        behavior_result: None,
        sandbox_result: None,
    }
}

fn empty_context() -> AnalysisContext {
    AnalysisContext {
        import_result: None,
        string_result: None,
        entropy_result: None,
        behavior_result: None,
        sandbox_result: None,
    }
}

#[test]
fn detects_reverse_shell() {
    let s = signals(
        &["socket", "execve", "dup2"],
        &[],
        &[StringCategory::ShellCommand],
        false,
    );
    let patterns = s.detect_patterns();
    let rs = find(&patterns, "Reverse Shell").expect("reverse shell should fire");
    assert_eq!(rs.severity, Severity::Critical);
    assert!(rs.indicators.len() >= MIN_INDICATORS);
    let confidence = rs.confidence as f64 / 100.0;
    assert!(confidence > 0.0 && confidence <= 1.0);
    assert!(rs.mitre_ids.contains(&"T1059".to_string()));
}

#[test]
fn detects_ransomware() {
    let s = signals(
        &["CryptEncrypt", "FindFirstFileW"],
        &["Your files have been encrypted"],
        &[],
        true,
    );
    let patterns = s.detect_patterns();
    let rw = find(&patterns, "Ransomware").expect("ransomware should fire");
    assert_eq!(rw.severity, Severity::Critical);
    assert_eq!(rw.indicators.len(), 4);
}

#[test]
fn detects_dropper() {
    let s = signals(
        &["URLDownloadToFileW", "WriteFile", "ShellExecuteA"],
        &[],
        &[],
        false,
    );
    let patterns = s.detect_patterns();
    assert!(find(&patterns, "Dropper").is_some());
}

#[test]
fn benign_binary_fires_nothing() {
    let s = signals(&["printf", "malloc", "free", "puts"], &["hello world"], &[], false);
    assert!(s.detect_patterns().is_empty());
}

#[test]
fn two_indicators_do_not_fire() {
    // socket + execve only (2 indicators) - below the min-3 threshold
    let s = signals(&["socket", "execve"], &[], &[], false);
    assert!(find(&s.detect_patterns(), "Reverse Shell").is_none());
}

#[test]
fn api_matching_ignores_case_and_aw_suffix() {
    assert!(api_matches("IsDebuggerPresent", "isdebuggerpresent"));
    assert!(api_matches("RegSetValueExW", "RegSetValueEx"));
    assert!(!api_matches("reconnect", "connect"));
}

#[test]
fn api_matching_allows_one_variant_letter_only() {
    assert!(api_matches("RegSetValueExA", "RegSetValueEx"));
    assert!(api_matches("REGSETVALUEEXw", "regsetvalueex"));
    assert!(!api_matches("RegSetValueExAW", "RegSetValueEx"));
    assert!(!api_matches("RegSetValueExB", "RegSetValueEx"));
    assert!(!api_matches("RegSetValueE", "RegSetValueEx"));
    assert!(!api_matches("", "open"));
}

#[test]
fn api_matching_folds_beyond_ascii() {
    assert!(api_matches("ÖFFNEN", "öffnen"));
    assert!(!api_matches("öffnen", "offnen"));
    // A sigma in front of the suffix is not a final one.
    assert!(!api_matches("ΑΣW", "ΑΣ"));
}

#[test]
fn ransomware_report_is_exact() {
    let s = signals(
        &["printf", "CryptEncrypt", "FindFirstFileW", "BCryptEncrypt"],
        &["hello", "Your files have been ENCRYPTED", "bitcoin"],
        &[],
        true,
    );
    let p = s.ransomware().expect("fires");
    assert_eq!(p.name, "Ransomware");
    assert_eq!(p.category, "file-encryption");
    assert_eq!(
        p.description,
        "Encrypts victim files: crypto APIs + file enumeration + ransom \
         note strings + high entropy"
    );
    assert_eq!(p.confidence, 100);
    assert_eq!(
        p.indicators,
        vec![
            "encryption API: CryptEncrypt".to_string(),
            "file enumeration: FindFirstFileW".to_string(),
            "ransom note string: your files have been encrypted".to_string(),
            "high-entropy / packed payload".to_string(),
        ]
    );
    assert_eq!(p.mitre_ids, vec!["T1486".to_string(), "T1083".to_string()]);
}

#[test]
fn reverse_shell_report_is_exact() {
    let s = signals(&["WSASocketA", "popen", "dup3"], &["run /BIN/SH now"], &[], false);
    let p = s.reverse_shell().expect("fires");
    assert_eq!(p.category, "remote-access");
    assert_eq!(
        p.description,
        "Connects out and pipes a shell: socket + command execution + \
         shell strings + fd redirection"
    );
    assert_eq!(
        p.indicators,
        vec![
            "socket API: WSASocketA".to_string(),
            "command execution: popen".to_string(),
            "shell command string".to_string(),
            "fd redirection: dup3".to_string(),
        ]
    );
    assert_eq!(p.mitre_ids, vec!["T1059".to_string(), "T1071".to_string()]);
}

#[test]
fn dropper_report_is_exact() {
    let s = signals(&["fopen", "system"], &["see HTTP://example"], &[], true);
    let p = s.dropper().expect("fires");
    assert_eq!(p.severity, Severity::High);
    assert_eq!(p.confidence, 100);
    assert_eq!(p.category, "delivery");
    assert_eq!(p.description, "Downloads/writes and executes a second-stage payload");
    assert_eq!(
        p.indicators,
        vec![
            "download capability".to_string(),
            "writes files to disk".to_string(),
            "executes payload".to_string(),
            "embedded high-entropy payload".to_string(),
            "minimal imports (2)".to_string(),
        ]
    );
    assert_eq!(p.mitre_ids, vec!["T1105".to_string()]);
}

#[test]
fn confidence_is_the_rounded_share() {
    let three_of_four = signals(&["socket", "execve", "dup2"], &[], &[], false);
    assert_eq!(three_of_four.reverse_shell().expect("fires").confidence, 75);
    let four_of_five = signals(&["fopen", "system"], &[], &[StringCategory::Url], false);
    assert_eq!(four_of_five.dropper().expect("fires").confidence, 80);
    let three_of_five = signals(&["fopen", "system"], &[], &[], false);
    assert_eq!(three_of_five.dropper().expect("fires").confidence, 60);
}

#[test]
fn many_imports_are_not_minimal() {
    let mut names: Vec<String> = (0..22).map(|i| format!("f{}", i)).collect();
    names.push("fopen".to_string());
    names.push("system".to_string());
    let refs: Vec<&str> = names.iter().map(|s| s.as_str()).collect();
    let p = signals(&refs, &[], &[], true).dropper().expect("fires");
    assert_eq!(p.indicators[3], "minimal imports (24)");
    assert_eq!(p.confidence, 80);
    names.push("g".to_string());
    let refs: Vec<&str> = names.iter().map(|s| s.as_str()).collect();
    let p = signals(&refs, &[], &[], true).dropper().expect("fires");
    assert_eq!(p.indicators.len(), 3);
    // The import that is one too many takes the third indicator away.
    assert!(signals(&refs, &[], &[], false).dropper().is_none());
}

#[test]
fn keylogger_report_is_exact() {
    let s = signals(
        &["GetAsyncKeyState", "fwrite", "send"],
        &[],
        &[StringCategory::PersistencePath],
        false,
    );
    let p = s.keylogger().expect("fires");
    assert_eq!(p.severity, Severity::High);
    assert_eq!(p.category, "collection");
    assert_eq!(p.description, "Captures keystrokes, logs them, and persists");
    assert_eq!(
        p.indicators,
        vec![
            "keyboard capture: GetAsyncKeyState".to_string(),
            "logs to a file".to_string(),
            "persistence mechanism".to_string(),
            "network exfiltration".to_string(),
        ]
    );
    assert_eq!(p.mitre_ids, vec!["T1056.001".to_string()]);
}

#[test]
fn rootkit_report_is_exact() {
    let s = signals(
        &["ptrace", "dlsym"],
        &["sudo insmod x.ko", "LD_PRELOAD=/tmp/.x"],
        &[],
        false,
    );
    let p = s.rootkit().expect("fires");
    assert_eq!(p.severity, Severity::Critical);
    assert_eq!(p.category, "defense-evasion");
    assert_eq!(p.description, "Manipulates the kernel/processes and hides its presence");
    assert_eq!(
        p.indicators,
        vec![
            "process manipulation: ptrace".to_string(),
            "kernel module string: sudo insmod x.ko".to_string(),
            "hiding artifact: ld_preload=/tmp/.x".to_string(),
            "runtime symbol resolution".to_string(),
        ]
    );
    assert_eq!(p.mitre_ids, vec!["T1014".to_string(), "T1055.008".to_string()]);
}

#[test]
fn patterns_come_in_a_fixed_order_once_each() {
    let s = signals(
        &[
            "ptrace", "SetWindowsHookExA", "fopen", "system", "socket", "dup2", "CryptGenKey",
            "readdir", "dlopen", "CreateServiceW",
        ],
        &["bitcoin", "/dev/mem", "/bin/sh"],
        &[],
        true,
    );
    let names: Vec<String> = s.detect_patterns().into_iter().map(|p| p.name).collect();
    assert_eq!(names, vec!["Ransomware", "Reverse Shell", "Dropper", "Keylogger", "Rootkit"]);
}

#[test]
fn first_import_is_quoted_as_written() {
    let s = signals(&["puts", "Dup3", "DUP2"], &[], &[], false);
    assert_eq!(s.imports_any(&["dup2", "dup3"]), Some("Dup3".to_string()));
    assert_eq!(s.imports_any(&["dlopen"]), None);
    assert_eq!(s.imports_any(&[]), None);
}

#[test]
fn first_string_is_found_by_substring() {
    let s = signals(&[], &["abc", "xabcd", "Ünïcode text"], &[StringCategory::Url], false);
    assert_eq!(s.string_contains_any(&["bcd", "nomatch"]), Some("xabcd".to_string()));
    assert_eq!(s.string_contains_any(&["abc"]), Some("abc".to_string()));
    assert_eq!(s.string_contains_any(&["ïcode"]), Some("ünïcode text".to_string()));
    assert_eq!(s.string_contains_any(&["abcde"]), None);
    assert_eq!(s.string_contains_any(&[""]), Some("abc".to_string()));
    assert!(s.has_category(StringCategory::Url));
    assert!(!s.has_category(StringCategory::ShellCommand));
}

#[test]
fn signals_of_a_context() {
    let ctx = context(
        &["Socket", "puts"],
        &[("Hello World", StringCategory::Generic), ("HTTP://X", StringCategory::Url)],
        false,
        3.0,
    );
    let s = Signals::from_context(&ctx);
    assert_eq!(s.functions, vec!["Socket".to_string(), "puts".to_string()]);
    assert_eq!(s.string_values, vec!["hello world".to_string(), "http://x".to_string()]);
    assert_eq!(s.categories, vec![StringCategory::Generic, StringCategory::Url]);
    assert!(!s.high_entropy);
    assert_eq!(s.import_count, 2);
}

#[test]
fn signals_of_an_empty_context() {
    let s = Signals::from_context(&empty_context());
    assert!(s.functions.is_empty());
    assert!(s.string_values.is_empty());
    assert!(s.categories.is_empty());
    assert!(!s.high_entropy);
    assert_eq!(s.import_count, 0);
    assert!(s.detect_patterns().is_empty());
}

#[test]
fn entropy_threshold_is_seven() {
    let below = f64::from_bits(7.0f64.to_bits() - 1);
    for (packed, entropy, high) in [
        (false, 7.0, true),
        (false, below, false),
        (false, 7.999, true),
        (false, 6.5, false),
        (false, 0.0, false),
        (false, 1e300, true),
        (false, f64::INFINITY, true),
        (false, f64::NEG_INFINITY, false),
        (false, -7.0, false),
        (false, f64::NAN, false),
        (false, f64::MIN_POSITIVE, false),
        (true, 0.0, true),
        (true, f64::NAN, true),
    ] {
        let s = Signals::from_context(&context(&[], &[], packed, entropy));
        assert_eq!(s.high_entropy, high, "{} {}", packed, entropy);
        assert_eq!(s.high_entropy, packed || entropy >= 7.0);
    }
}

#[test]
fn pass_leaves_its_result_and_nothing_else() {
    let mut ctx = context(
        &["socket", "execve", "dup2"],
        &[("/bin/sh -c", StringCategory::ShellCommand)],
        false,
        2.0,
    );
    let pass = BehaviorPass;
    assert_eq!(pass.name(), "behavior");
    assert_eq!(pass.dependencies(), &["imports", "strings", "entropy"]);
    assert!(pass.run(&mut ctx).is_ok());
    let patterns = ctx.behavior_result.as_ref().expect("set").patterns.clone();
    assert_eq!(patterns.len(), 1);
    assert_eq!(patterns[0].name, "Reverse Shell");
    assert!(ctx.sandbox_result.is_none());
    assert_eq!(ctx.import_result.as_ref().expect("kept").imports.len(), 3);
    assert!(pass.run(&mut ctx).is_ok());
    let again = ctx.behavior_result.as_ref().expect("set").patterns.clone();
    assert_eq!(again.len(), 1);
    assert_eq!(again[0].indicators, patterns[0].indicators);
}

#[test]
fn further_findings_keep_a_pattern() {
    let few = signals(&["socket", "execve", "dup2"], &[], &[], false);
    let more = signals(&["socket", "execve", "dup2", "puts", "connect"], &["x"], &[], true);
    let a = few.reverse_shell().expect("fires");
    let b = more.reverse_shell().expect("fires");
    assert_eq!(a.indicators, b.indicators);
}

#[test]
fn further_findings_raise_the_confidence() {
    let three = signals(&["ptrace", "dlsym"], &["/dev/mem"], &[], false);
    let four = signals(&["ptrace", "dlsym", "puts"], &["/dev/mem", "/.hidden"], &[], false);
    let a = three.rootkit().expect("fires");
    let b = four.rootkit().expect("fires");
    assert_eq!((a.confidence, b.confidence), (75, 100));
    assert!(a.indicators.iter().all(|i| b.indicators.contains(i)));
    // The count in a dropper's indicator follows the number of imports.
    let a = signals(&["fopen", "system"], &[], &[], true).dropper().expect("fires");
    let b = signals(&["fopen", "system", "puts"], &[], &[], true).dropper().expect("fires");
    assert_eq!(a.indicators[3], "minimal imports (2)");
    assert_eq!(b.indicators[3], "minimal imports (3)");
}

/// The share as double-precision arithmetic rounds it to hundredths.
fn double_share(matched: usize, total: usize) -> f64 {
    let share = (matched as f64 / total as f64).min(1.0);
    (share * 100.0).round() / 100.0
}

fn assert_share_agrees(matched: usize, total: usize) {
    let share = share_in_hundredths(matched, total) as f64 / 100.0;
    assert_eq!(share, double_share(matched, total), "{} of {}", matched, total);
}

#[test]
fn share_agrees_with_double_arithmetic_below_forty() {
    for t in 0..40 {
        for n in 3..t {
            assert_share_agrees(n, t);
            // Below forty the nearest hundredth needs no exception.
            assert_eq!(share_in_hundredths(n, t) as usize, (200 * n + t) / (2 * t));
        }
    }
}

#[test]
fn share_agrees_with_double_arithmetic() {
    for t in 0..1201 {
        for n in 3..t + 3 {
            assert_share_agrees(n, t);
        }
    }
}

#[test]
fn share_agrees_with_double_arithmetic_around_every_half() {
    let mut totals: Vec<usize> = (10..44).flat_map(|k| [(1usize << k) - 1, 1 << k]).collect();
    totals.extend([SHARE_LIMIT as usize, SHARE_LIMIT as usize - 1, 200_000_000_000, 17_592_186_044_400]);
    for total in totals {
        for half in (1..200).step_by(2) {
            let middle = (half as u128 * total as u128 / 200) as usize;
            for n in [middle.saturating_sub(1), middle, middle + 1] {
                if n >= 3 {
                    assert_share_agrees(n, total);
                }
            }
        }
    }
}

#[test]
fn halves_that_round_down() {
    assert_eq!(share_in_hundredths(23, 40), 57);
    assert_eq!(share_in_hundredths(29, 200), 14);
    assert_eq!(share_in_hundredths(57, 200), 28);
    assert_eq!(share_in_hundredths(113, 200), 56);
    assert_eq!(share_in_hundredths(3, 40), 8);
    assert_eq!(share_in_hundredths(3, 41), 7);
}

#[test]
fn full_share() {
    assert_eq!(share_in_hundredths(3, 0), 100);
    assert_eq!(share_in_hundredths(40, 40), 100);
    assert_eq!(share_in_hundredths(60, 50), 100);
    assert_eq!(share_in_hundredths(198, 199), 99);
    assert_eq!(share_in_hundredths(199, 200), 100);
    assert_eq!(share_in_hundredths(usize::MAX - 1, usize::MAX), 100);
}
