//! Behavioural pattern detection.
//!
//! Correlates what the imports, strings and entropy passes found into high-level
//! verdicts: ransomware, reverse shell, dropper, keylogger, rootkit. A single
//! indicator (one API, one string) is noisy, so a pattern fires only when at least
//! [`MIN_INDICATORS`] independent indicators agree. Each pattern that fires carries a
//! confidence, the indicators that matched, and the MITRE technique identifiers.

use vstd::prelude::*;
use vstd::arithmetic::power2::{lemma_pow2_adds, lemma_pow2_pos, lemma_pow2_strictly_increases};
use vstd::arithmetic::power2::{lemma2_to64, lemma2_to64_rest, pow2};
use crate::context::{AnalysisContext, EntropyResult, ExtractedString, found_strings};
use crate::context::{import_function_names, import_names};
use crate::double::{at_least, exponent_field, fraction_field, is_negative};
use crate::error::EngineError;
use crate::matching::{api_match, first_import, first_matching, names_api};
use crate::pass::{AnalysisPass, Sealed};
use crate::text::{contains, decimal, decimal_text, find_first, is_substring, lowercase, opt_view};
use crate::text::{str_views, to_lowercase, views, views_push};
use crate::types::{Severity, StringCategory};

verus! {

/// How many indicators have to agree before a pattern fires.
pub const MIN_INDICATORS: usize = 3;

/// From this number of imports on a binary does not count as a minimal one.
pub const DROPPER_MAX_IMPORTS: usize = 25;

/// The findings of the pass.
#[derive(Debug, Clone)]
pub struct BehaviorResult {
    pub patterns: Vec<BehaviorPattern>,
}

/// One behaviour that was recognised. The confidence is the share of the pattern's
/// indicators that matched, in hundredths.
#[derive(Debug, Clone)]
pub struct BehaviorPattern {
    pub name: String,
    pub category: String,
    pub description: String,
    pub severity: Severity,
    pub confidence: u32,
    pub indicators: Vec<String>,
    pub mitre_ids: Vec<String>,
}

/// A pattern as text.
#[verifier::ext_equal]
pub struct PatternView {
    pub name: Seq<char>,
    pub category: Seq<char>,
    pub description: Seq<char>,
    pub severity: Severity,
    pub confidence: nat,
    pub indicators: Seq<Seq<char>>,
    pub mitre_ids: Seq<Seq<char>>,
}

impl View for BehaviorPattern {
    type V = PatternView;

    open spec fn view(&self) -> PatternView {
        PatternView {
            name: self.name@,
            category: self.category@,
            description: self.description@,
            severity: self.severity,
            confidence: self.confidence as nat,
            indicators: views(self.indicators@),
            mitre_ids: views(self.mitre_ids@),
        }
    }
}

/// The text of an optional pattern.
pub open spec fn opt_pattern_view(p: Option<BehaviorPattern>) -> Option<PatternView> {
    match p {
        Some(x) => Some(x@),
        None => None,
    }
}

/// The texts of a list of patterns.
pub open spec fn pattern_views(v: Seq<BehaviorPattern>) -> Seq<PatternView> {
    v.map_values(|p: BehaviorPattern| p@)
}

// ---------------------------------------------------------------------------
// Indicators and patterns
// ---------------------------------------------------------------------------

/// The nearest number of hundredths to the share `matched` of `total`, the upper one where
/// two are as near.
pub open spec fn nearest_hundredth(matched: nat, total: nat) -> nat {
    (200 * matched + total) / (2 * total)
}

/// The share `matched` of `total`, at most one, in hundredths: the nearest number of
/// hundredths. Midway between two it is the upper one, except for the four shares that
/// double-precision arithmetic rounds down, because the quotient times 100 falls just
/// short of 14.5, 28.5, 56.5 and 57.5. The first of these is 23 of 40.
pub open spec fn confidence(matched: nat, total: nat) -> nat {
    if matched >= total {
        100
    } else if 200 * matched == 29 * total {
        14
    } else if 200 * matched == 57 * total {
        28
    } else if 200 * matched == 113 * total {
        56
    } else if 200 * matched == 115 * total {
        57
    } else {
        nearest_hundredth(matched, total)
    }
}

/// Up to this total, two to the power of 44, [`confidence`] is what dividing, multiplying
/// by 100 and rounding gives in double precision: the two operations are off by less than
/// the distance of any share from the next half of a hundredth, and at a half itself the
/// quotient is the same for all totals. For larger totals the double-precision result may
/// be the next hundredth on either side.
pub const SHARE_LIMIT: u64 = 0x1000_0000_0000;

/// What is known of a pattern before any indicator is looked at.
pub struct PatternHead {
    pub name: Seq<char>,
    pub category: Seq<char>,
    pub description: Seq<char>,
    pub severity: Severity,
    pub mitre_ids: Seq<Seq<char>>,
}

/// The pattern with a given confidence, if enough of its indicators matched.
pub open spec fn pattern_with(
    head: PatternHead,
    indicators: Seq<Seq<char>>,
    confidence: nat,
) -> Option<PatternView> {
    if indicators.len() < MIN_INDICATORS {
        None
    } else {
        Some(
            PatternView {
                name: head.name,
                category: head.category,
                description: head.description,
                severity: head.severity,
                confidence,
                indicators,
                mitre_ids: head.mitre_ids,
            },
        )
    }
}

/// The pattern, if enough of its `total` candidate indicators matched.
pub open spec fn pattern_of(
    head: PatternHead,
    indicators: Seq<Seq<char>>,
    total: nat,
) -> Option<PatternView> {
    pattern_with(head, indicators, confidence(indicators.len(), total))
}

/// The indicator of a match that is quoted behind a label.
pub open spec fn labelled(label: Seq<char>, found: Option<Seq<char>>) -> Seq<Seq<char>> {
    match found {
        Some(m) => seq![label + m],
        None => seq![],
    }
}

/// The indicator of a match that is not quoted.
pub open spec fn flagged(text: Seq<char>, found: bool) -> Seq<Seq<char>> {
    if found {
        seq![text]
    } else {
        seq![]
    }
}

/// Owned copies of a list of texts.
fn owned(texts: &[&str]) -> (r: Vec<String>)
    ensures
        views(r@) == str_views(texts@),
{
    let mut r: Vec<String> = Vec::new();
    let mut i: usize = 0;
    while i < texts.len()
        invariant
            i <= texts@.len(),
            views(r@) == str_views(texts@).take(i as int),
        decreases texts@.len() - i,
    {
        let text = texts[i].to_string();
        proof {
            let t = str_views(texts@);
            views_push(r@, text);
            assert(t.take(i + 1) =~= t.take(i as int).push(t[i as int]));
        }
        r.push(text);
        i += 1;
    }
    assert(views(r@) =~= str_views(texts@));
    r
}

/// The confidence of a pattern of which `matched` of `total` indicators matched.
pub fn share_in_hundredths(matched: usize, total: usize) -> (r: u32)
    ensures
        r == confidence(matched as nat, total as nat),
        r <= 100,
{
    if matched >= total {
        return 100;
    }
    let m: u128 = matched as u128;
    let t: u128 = total as u128;
    proof {
        let (x, y) = (m as int, t as int);
        assert((200 * x + y) / (2 * y) <= 100) by (nonlinear_arith)
            requires
                0 <= x < y,
        ;
    }
    if 200 * m == 29 * t {
        14
    } else if 200 * m == 57 * t {
        28
    } else if 200 * m == 113 * t {
        56
    } else if 200 * m == 115 * t {
        57
    } else {
        ((200 * m + t) / (2 * t)) as u32
    }
}

/// The pattern, if enough of its `total_candidates` indicators matched, with the share
/// that did as its confidence. Beyond [`SHARE_LIMIT`] the confidence of a share below one
/// is promised to within a hundredth only.
fn build_pattern(
    name: &str,
    category: &str,
    description: &str,
    severity: Severity,
    mitre_ids: &[&str],
    indicators: Vec<String>,
    total_candidates: usize,
) -> (r: Option<BehaviorPattern>)
    ensures
        ({
            let head = PatternHead {
                name: name@,
                category: category@,
                description: description@,
                severity,
                mitre_ids: str_views(mitre_ids@),
            };
            let matched = indicators@.len();
            let total = total_candidates as nat;
            &&& r is Some <==> matched >= MIN_INDICATORS
            &&& r matches Some(p) ==> Some(p@) == pattern_with(
                head,
                views(indicators@),
                p.confidence as nat,
            )
            &&& (total <= SHARE_LIMIT || total <= matched) ==> opt_pattern_view(r) == pattern_of(
                head,
                views(indicators@),
                total,
            )
            &&& total > matched ==> (r matches Some(p) ==> nearest_hundredth(matched, total) - 1
                <= p.confidence <= nearest_hundredth(matched, total) + 1)
        }),
{
    if indicators.len() < MIN_INDICATORS {
        return None;
    }
    let matched = indicators.len();
    proof {
        if matched < total_candidates {
            let (m, t) = (matched as int, total_candidates as int);
            let nearest = (200 * m + t) / (2 * t);
            assert(2 * t * nearest <= 200 * m + t < 2 * t * (nearest + 1)) by (nonlinear_arith)
                requires
                    0 <= m < t,
                    nearest == (200 * m + t) / (2 * t),
            ;
            assert((200 * m == 29 * t ==> nearest == 15) && (200 * m == 57 * t ==> nearest == 29)
                && (200 * m == 113 * t ==> nearest == 57) && (200 * m == 115 * t ==> nearest
                == 58)) by (nonlinear_arith)
                requires
                    0 <= m < t,
                    2 * t * nearest <= 200 * m + t < 2 * t * (nearest + 1),
            ;
        }
    }
    Some(
        BehaviorPattern {
            name: name.to_string(),
            category: category.to_string(),
            description: description.to_string(),
            severity,
            confidence: share_in_hundredths(matched, total_candidates),
            indicators,
            mitre_ids: owned(mitre_ids),
        },
    )
}

/// Adds the indicator of a match that is quoted behind a label.
fn push_labelled(indicators: &mut Vec<String>, label: &str, found: Option<String>)
    ensures
        views(final(indicators)@) == views(old(indicators)@) + labelled(label@, opt_view(found)),
{
    let ghost before = views(indicators@);
    if let Some(m) = found {
        let text = label.to_string().concat(m.as_str());
        proof {
            views_push(indicators@, text);
        }
        indicators.push(text);
    }
    assert(views(indicators@) =~= before + labelled(label@, opt_view(found)));
}

/// Adds the indicator of a match that is not quoted.
fn push_flagged(indicators: &mut Vec<String>, text: &str, found: bool)
    ensures
        views(final(indicators)@) == views(old(indicators)@) + flagged(text@, found),
{
    let ghost before = views(indicators@);
    if found {
        let owned_text = text.to_string();
        proof {
            views_push(indicators@, owned_text);
        }
        indicators.push(owned_text);
    }
    assert(views(indicators@) =~= before + flagged(text@, found));
}

// ---------------------------------------------------------------------------
// Entropy
// ---------------------------------------------------------------------------

/// Bits per byte from which on data counts as high-entropy.
pub const HIGH_ENTROPY_THRESHOLD: u64 = 7;

/// The representation of [`HIGH_ENTROPY_THRESHOLD`] as a double-precision number.
const HIGH_ENTROPY_BITS: u64 = 0x401c_0000_0000_0000;

/// The representation of positive infinity.
const INFINITY_BITS: u64 = 0x7ff0_0000_0000_0000;

/// The binary is packed, or its overall entropy reaches the threshold.
pub open spec fn is_high_entropy(e: EntropyResult) -> bool {
    e.packing_detected || at_least(e.overall_entropy_bits, HIGH_ENTROPY_THRESHOLD as nat)
}

/// Among the representations of numbers that are neither negative nor NaN, those of
/// at least the threshold are the ones from its own representation upwards.
pub proof fn threshold_by_representation(bits: u64)
    ensures
        at_least(bits, 7) <==> 0x401c_0000_0000_0000 <= bits <= 0x7ff0_0000_0000_0000,
{
    let e = exponent_field(bits);
    let f = fraction_field(bits);
    assert(!is_negative(bits) ==> bits == e * 0x10_0000_0000_0000 + f);
    lemma_pow2_adds(1024, 50);
    lemma2_to64();
    lemma_pow2_pos(1024);
    let unit = pow2(1024);
    assert(pow2(50) == 0x4_0000_0000_0000) by {
        lemma2_to64_rest();
    }
    assert(7 * pow2(1074) == 7 * 0x4_0000_0000_0000 * unit) by (nonlinear_arith)
        requires
            pow2(1074) == unit * pow2(50),
            pow2(50) == 0x4_0000_0000_0000,
    ;
    if !is_negative(bits) && e < 0x7ff && e > 0 {
        let m = 0x10_0000_0000_0000 + f;
        if e == 1025 {
            assert(m * unit >= 7 * 0x4_0000_0000_0000 * unit <==> m >= 7 * 0x4_0000_0000_0000)
                by (nonlinear_arith)
                requires
                    unit > 0,
            ;
        } else if e > 1025 {
            lemma_pow2_adds(1024, 1);
            if e > 1026 {
                lemma_pow2_strictly_increases(1025, (e - 1) as nat);
            }
            assert(m * pow2((e - 1) as nat) >= 7 * 0x4_0000_0000_0000 * unit) by (nonlinear_arith)
                requires
                    m >= 0x10_0000_0000_0000,
                    pow2((e - 1) as nat) >= 2 * unit,
                    unit > 0,
            ;
        } else {
            lemma_pow2_strictly_increases((e - 1) as nat, 1024);
            lemma_pow2_adds(1023, 1);
            if e < 1024 {
                lemma_pow2_strictly_increases((e - 1) as nat, 1023);
            }
            assert(m * pow2((e - 1) as nat) < 7 * 0x4_0000_0000_0000 * unit) by (nonlinear_arith)
                requires
                    m < 0x20_0000_0000_0000,
                    2 * pow2((e - 1) as nat) <= unit,
                    unit > 0,
            ;
        }
    } else if !is_negative(bits) && e == 0 {
        assert(f < 7 * 0x4_0000_0000_0000 * unit) by (nonlinear_arith)
            requires
                f < 0x10_0000_0000_0000,
                unit >= 1,
        ;
    }
}

/// Whether the binary is packed or of high overall entropy.
fn high_entropy(e: &EntropyResult) -> (r: bool)
    ensures
        r == is_high_entropy(*e),
{
    proof {
        threshold_by_representation(e.overall_entropy_bits);
    }
    e.packing_detected || (HIGH_ENTROPY_BITS <= e.overall_entropy_bits && e.overall_entropy_bits
        <= INFINITY_BITS)
}

// ---------------------------------------------------------------------------
// What the patterns look for
// ---------------------------------------------------------------------------

/// APIs that encrypt or make encryption keys.
pub const ENCRYPTION_APIS: [&'static str; 8] = [
    "CryptEncrypt",
    "CryptDeriveKey",
    "CryptGenKey",
    "BCryptEncrypt",
    "EVP_EncryptInit",
    "EVP_EncryptInit_ex",
    "AES_encrypt",
    "AES_set_encrypt_key",
];

/// APIs that list files.
pub const FILE_ENUMERATION_APIS: [&'static str; 5] = [
    "FindFirstFile",
    "FindNextFile",
    "readdir",
    "opendir",
    "nftw",
];

/// Words of a ransom note.
pub const RANSOM_NOTE_STRINGS: [&'static str; 7] = [
    "your files have been encrypted",
    "ransom",
    ".locked",
    "decrypt your files",
    "bitcoin",
    "recover your files",
    "readme.txt",
];

/// MITRE identifiers of ransomware.
pub const RANSOMWARE_TECHNIQUES: [&'static str; 2] = [
    "T1486",
    "T1083",
];

/// APIs that open a connection.
pub const SOCKET_APIS: [&'static str; 6] = [
    "socket",
    "connect",
    "WSASocket",
    "WSAConnect",
    "inet_pton",
    "inet_addr",
];

/// APIs that run a command.
pub const COMMAND_EXECUTION_APIS: [&'static str; 7] = [
    "execve",
    "system",
    "CreateProcess",
    "ShellExecute",
    "WinExec",
    "posix_spawn",
    "popen",
];

/// Names of shells.
pub const SHELL_STRINGS: [&'static str; 3] = [
    "/bin/sh",
    "/bin/bash",
    "cmd.exe",
];

/// APIs that redirect a file descriptor.
pub const FD_REDIRECTION_APIS: [&'static str; 2] = [
    "dup2",
    "dup3",
];

/// MITRE identifiers of a reverse shell.
pub const REVERSE_SHELL_TECHNIQUES: [&'static str; 2] = [
    "T1059",
    "T1071",
];

/// APIs that download.
pub const DOWNLOAD_APIS: [&'static str; 4] = [
    "URLDownloadToFile",
    "InternetOpen",
    "WinHttpOpen",
    "curl_easy_init",
];

/// Words of a download.
pub const DOWNLOAD_STRINGS: [&'static str; 4] = [
    "wget ",
    "curl ",
    "http://",
    "https://",
];

/// APIs that write a payload to disk.
pub const FILE_WRITE_APIS: [&'static str; 5] = [
    "WriteFile",
    "fwrite",
    "CreateFile",
    "fopen",
    "open",
];

/// APIs that run a payload.
pub const PAYLOAD_EXECUTION_APIS: [&'static str; 5] = [
    "ShellExecute",
    "WinExec",
    "system",
    "CreateProcess",
    "execve",
];

/// MITRE identifiers of a dropper.
pub const DROPPER_TECHNIQUES: [&'static str; 1] = [
    "T1105",
];

/// APIs that read the keyboard.
pub const KEYBOARD_APIS: [&'static str; 6] = [
    "SetWindowsHookEx",
    "GetAsyncKeyState",
    "GetKeyState",
    "GetKeyboardState",
    "RegisterRawInputDevices",
    "GetRawInputData",
];

/// APIs that write a log.
pub const LOG_FILE_APIS: [&'static str; 4] = [
    "WriteFile",
    "fwrite",
    "fopen",
    "CreateFile",
];

/// APIs that make a program start again.
pub const PERSISTENCE_APIS: [&'static str; 2] = [
    "RegSetValueEx",
    "CreateService",
];

/// APIs that send data out.
pub const EXFILTRATION_APIS: [&'static str; 4] = [
    "send",
    "InternetOpen",
    "socket",
    "WSASend",
];

/// MITRE identifiers of a keylogger.
pub const KEYLOGGER_TECHNIQUES: [&'static str; 1] = [
    "T1056.001",
];

/// APIs that reach into other processes.
pub const PROCESS_APIS: [&'static str; 3] = [
    "ptrace",
    "process_vm_writev",
    "process_vm_readv",
];

/// Words of kernel module handling.
pub const KERNEL_MODULE_STRINGS: [&'static str; 7] = [
    "insmod",
    "init_module",
    "/dev/kmem",
    "/dev/mem",
    "kernel module",
    "/proc/modules",
    "rmmod",
];

/// Words of hiding places.
pub const HIDING_STRINGS: [&'static str; 4] = [
    "/tmp/.",
    "/dev/shm/",
    "ld_preload",
    "/.hidden",
];

/// APIs that resolve symbols at run time.
pub const SYMBOL_RESOLUTION_APIS: [&'static str; 2] = [
    "dlopen",
    "dlsym",
];

/// MITRE identifiers of a rootkit.
pub const ROOTKIT_TECHNIQUES: [&'static str; 2] = [
    "T1014",
    "T1055.008",
];

// ---------------------------------------------------------------------------
// Signals
// ---------------------------------------------------------------------------

/// The findings of the earlier passes in the form the patterns query them.
pub struct Signals {
    /// Names of the imported functions, as they are written.
    pub functions: Vec<String>,
    /// Values of the strings, in lower case.
    pub string_values: Vec<String>,
    /// Categories of the strings.
    pub categories: Vec<StringCategory>,
    pub high_entropy: bool,
    pub import_count: usize,
}

/// Signals as text.
#[verifier::ext_equal]
pub struct SignalsView {
    pub functions: Seq<Seq<char>>,
    pub string_values: Seq<Seq<char>>,
    pub categories: Seq<StringCategory>,
    pub high_entropy: bool,
    pub import_count: nat,
}

impl View for Signals {
    type V = SignalsView;

    open spec fn view(&self) -> SignalsView {
        SignalsView {
            functions: views(self.functions@),
            string_values: views(self.string_values@),
            categories: self.categories@,
            high_entropy: self.high_entropy,
            import_count: self.import_count as nat,
        }
    }
}

/// The signals of a context: a result that is missing counts as an empty one.
pub open spec fn context_signals(ctx: AnalysisContext) -> SignalsView {
    SignalsView {
        functions: import_names(ctx.import_result),
        string_values: found_strings(ctx.string_result).map_values(
            |s: ExtractedString| lowercase(s.value@),
        ),
        categories: found_strings(ctx.string_result).map_values(|s: ExtractedString| s.category),
        high_entropy: match ctx.entropy_result {
            Some(e) => is_high_entropy(e),
            None => false,
        },
        import_count: import_names(ctx.import_result).len(),
    }
}

/// `value` contains one of `needles`.
pub open spec fn contains_any(value: Seq<char>, needles: Seq<Seq<char>>) -> bool {
    exists|j: int| 0 <= j < needles.len() && is_substring(#[trigger] needles[j], value)
}

impl SignalsView {
    /// The import count is that of the functions.
    pub open spec fn well_formed(self) -> bool {
        self.import_count == self.functions.len()
    }

    /// The first import that is one of `apis`.
    pub open spec fn import(self, apis: Seq<&str>) -> Option<Seq<char>> {
        first_import(self.functions, str_views(apis))
    }

    /// The first string value that contains one of `needles`.
    pub open spec fn string(self, needles: Seq<&str>) -> Option<Seq<char>> {
        find_first(self.string_values, |v: Seq<char>| contains_any(v, str_views(needles)))
    }

    /// Some string is of category `cat`.
    pub open spec fn has(self, cat: StringCategory) -> bool {
        self.categories.contains(cat)
    }

    pub open spec fn ransomware_indicators(self) -> Seq<Seq<char>> {
        labelled("encryption API: "@, self.import(ENCRYPTION_APIS@)) + labelled(
            "file enumeration: "@,
            self.import(FILE_ENUMERATION_APIS@),
        ) + labelled("ransom note string: "@, self.string(RANSOM_NOTE_STRINGS@)) + flagged(
            "high-entropy / packed payload"@,
            self.high_entropy,
        )
    }

    pub open spec fn reverse_shell_indicators(self) -> Seq<Seq<char>> {
        labelled("socket API: "@, self.import(SOCKET_APIS@)) + labelled(
            "command execution: "@,
            self.import(COMMAND_EXECUTION_APIS@),
        ) + flagged(
            "shell command string"@,
            self.has(StringCategory::ShellCommand) || self.string(SHELL_STRINGS@) is Some,
        ) + labelled("fd redirection: "@, self.import(FD_REDIRECTION_APIS@))
    }

    /// The binary has imports, but few.
    pub open spec fn minimal_imports(self) -> bool {
        0 < self.import_count < DROPPER_MAX_IMPORTS
    }

    pub open spec fn dropper_indicators(self) -> Seq<Seq<char>> {
        flagged(
            "download capability"@,
            self.import(DOWNLOAD_APIS@) is Some || self.has(StringCategory::Url) || self.string(
                DOWNLOAD_STRINGS@,
            ) is Some,
        ) + flagged("writes files to disk"@, self.import(FILE_WRITE_APIS@) is Some) + flagged(
            "executes payload"@,
            self.import(PAYLOAD_EXECUTION_APIS@) is Some,
        ) + flagged("embedded high-entropy payload"@, self.high_entropy) + flagged(
            "minimal imports ("@ + decimal(self.import_count) + ")"@,
            self.minimal_imports(),
        )
    }

    pub open spec fn keylogger_indicators(self) -> Seq<Seq<char>> {
        labelled("keyboard capture: "@, self.import(KEYBOARD_APIS@)) + flagged(
            "logs to a file"@,
            self.import(LOG_FILE_APIS@) is Some,
        ) + flagged(
            "persistence mechanism"@,
            self.import(PERSISTENCE_APIS@) is Some || self.has(StringCategory::PersistencePath),
        ) + flagged("network exfiltration"@, self.import(EXFILTRATION_APIS@) is Some)
    }

    pub open spec fn rootkit_indicators(self) -> Seq<Seq<char>> {
        labelled("process manipulation: "@, self.import(PROCESS_APIS@)) + labelled(
            "kernel module string: "@,
            self.string(KERNEL_MODULE_STRINGS@),
        ) + labelled("hiding artifact: "@, self.string(HIDING_STRINGS@)) + flagged(
            "runtime symbol resolution"@,
            self.import(SYMBOL_RESOLUTION_APIS@) is Some,
        )
    }

    pub open spec fn ransomware(self) -> Option<PatternView> {
        pattern_of(ransomware_head(), self.ransomware_indicators(), 4)
    }

    pub open spec fn reverse_shell(self) -> Option<PatternView> {
        pattern_of(reverse_shell_head(), self.reverse_shell_indicators(), 4)
    }

    pub open spec fn dropper(self) -> Option<PatternView> {
        pattern_of(dropper_head(), self.dropper_indicators(), 5)
    }

    pub open spec fn keylogger(self) -> Option<PatternView> {
        pattern_of(keylogger_head(), self.keylogger_indicators(), 4)
    }

    pub open spec fn rootkit(self) -> Option<PatternView> {
        pattern_of(rootkit_head(), self.rootkit_indicators(), 4)
    }

    /// The patterns that fire, in the order in which they are reported.
    pub open spec fn patterns(self) -> Seq<PatternView> {
        fired(self.ransomware()) + fired(self.reverse_shell()) + fired(self.dropper()) + fired(
            self.keylogger(),
        ) + fired(self.rootkit())
    }
}

/// A pattern that fired, as a list.
pub open spec fn fired(p: Option<PatternView>) -> Seq<PatternView> {
    match p {
        Some(x) => seq![x],
        None => seq![],
    }
}

pub open spec fn ransomware_head() -> PatternHead {
    PatternHead {
        name: "Ransomware"@,
        category: "file-encryption"@,
        description: "Encrypts victim files: crypto APIs + file enumeration + ransom note strings + high entropy"@,
        severity: Severity::Critical,
        mitre_ids: str_views(RANSOMWARE_TECHNIQUES@),
    }
}

pub open spec fn reverse_shell_head() -> PatternHead {
    PatternHead {
        name: "Reverse Shell"@,
        category: "remote-access"@,
        description: "Connects out and pipes a shell: socket + command execution + shell strings + fd redirection"@,
        severity: Severity::Critical,
        mitre_ids: str_views(REVERSE_SHELL_TECHNIQUES@),
    }
}

pub open spec fn dropper_head() -> PatternHead {
    PatternHead {
        name: "Dropper"@,
        category: "delivery"@,
        description: "Downloads/writes and executes a second-stage payload"@,
        severity: Severity::High,
        mitre_ids: str_views(DROPPER_TECHNIQUES@),
    }
}

pub open spec fn keylogger_head() -> PatternHead {
    PatternHead {
        name: "Keylogger"@,
        category: "collection"@,
        description: "Captures keystrokes, logs them, and persists"@,
        severity: Severity::High,
        mitre_ids: str_views(KEYLOGGER_TECHNIQUES@),
    }
}

pub open spec fn rootkit_head() -> PatternHead {
    PatternHead {
        name: "Rootkit"@,
        category: "defense-evasion"@,
        description: "Manipulates the kernel/processes and hides its presence"@,
        severity: Severity::Critical,
        mitre_ids: str_views(ROOTKIT_TECHNIQUES@),
    }
}

/// Whether `value` contains one of `needles`.
fn value_contains_any(value: &str, needles: &[&str]) -> (r: bool)
    ensures
        r == contains_any(value@, str_views(needles@)),
{
    let mut j: usize = 0;
    while j < needles.len()
        invariant
            j <= needles@.len(),
            forall|k: int| 0 <= k < j ==> !is_substring(#[trigger] str_views(needles@)[k], value@),
        decreases needles@.len() - j,
    {
        if contains(value, needles[j]) {
            assert(is_substring(str_views(needles@)[j as int], value@));
            return true;
        }
        j += 1;
    }
    false
}

/// Adds a pattern that fired to a list.
fn push_fired(patterns: &mut Vec<BehaviorPattern>, p: Option<BehaviorPattern>)
    ensures
        pattern_views(final(patterns)@) == pattern_views(old(patterns)@) + fired(
            opt_pattern_view(p),
        ),
{
    let ghost before = pattern_views(patterns@);
    if let Some(x) = p {
        patterns.push(x);
    }
    assert(pattern_views(patterns@) =~= before + fired(opt_pattern_view(p)));
}

impl Signals {
    /// The signals of a context.
    pub fn from_context(ctx: &AnalysisContext) -> (r: Self)
        ensures
            r@ == context_signals(*ctx),
            r@.well_formed(),
    {
        let functions = import_function_names(ctx);
        let import_count = functions.len();
        let mut string_values: Vec<String> = Vec::new();
        let mut categories: Vec<StringCategory> = Vec::new();
        if let Some(result) = &ctx.string_result {
            let ghost values = context_signals(*ctx).string_values;
            let ghost cats = context_signals(*ctx).categories;
            let mut i: usize = 0;
            while i < result.strings.len()
                invariant
                    ctx.string_result == Some(*result),
                    values == context_signals(*ctx).string_values,
                    cats == context_signals(*ctx).categories,
                    i <= result.strings@.len(),
                    views(string_values@) == values.take(i as int),
                    categories@ == cats.take(i as int),
                decreases result.strings@.len() - i,
            {
                let lower = to_lowercase(result.strings[i].value.as_str());
                proof {
                    views_push(string_values@, lower);
                    assert(values.take(i + 1) =~= values.take(i as int).push(values[i as int]));
                    assert(cats.take(i + 1) =~= cats.take(i as int).push(cats[i as int]));
                }
                string_values.push(lower);
                categories.push(result.strings[i].category);
                i += 1;
            }
        }
        let high_entropy = match &ctx.entropy_result {
            Some(e) => high_entropy(e),
            None => false,
        };
        let r = Signals { functions, string_values, categories, high_entropy, import_count };
        assert(r@ =~= context_signals(*ctx));
        r
    }

    /// The first import that is one of `apis`, letter case and one trailing `A` or `W` aside.
    pub fn imports_any(&self, apis: &[&str]) -> (r: Option<String>)
        ensures
            opt_view(r) == self@.import(apis@),
    {
        first_matching(self.functions.as_slice(), apis)
    }

    /// The first string value that contains one of `needles`.
    pub fn string_contains_any(&self, needles: &[&str]) -> (r: Option<String>)
        ensures
            opt_view(r) == self@.string(needles@),
    {
        let ghost values = views(self.string_values@);
        let ghost p = |v: Seq<char>| contains_any(v, str_views(needles@));
        let mut i: usize = 0;
        assert(values.skip(0) =~= values);
        while i < self.string_values.len()
            invariant
                values == views(self.string_values@),
                p == (|v: Seq<char>| contains_any(v, str_views(needles@))),
                i <= self.string_values@.len(),
                find_first(values, p) == find_first(values.skip(i as int), p),
            decreases self.string_values@.len() - i,
        {
            if value_contains_any(self.string_values[i].as_str(), needles) {
                return Some(self.string_values[i].clone());
            }
            assert(values.skip(i as int).drop_first() =~= values.skip(i + 1));
            i += 1;
        }
        None
    }

    /// Whether some string is of category `cat`.
    pub fn has_category(&self, cat: StringCategory) -> (r: bool)
        ensures
            r == self@.has(cat),
    {
        let mut i: usize = 0;
        while i < self.categories.len()
            invariant
                i <= self.categories@.len(),
                forall|k: int| 0 <= k < i ==> self.categories@[k] != cat,
            decreases self.categories@.len() - i,
        {
            if self.categories[i] == cat {
                return true;
            }
            i += 1;
        }
        false
    }

    /// The patterns that fire.
    pub fn detect_patterns(&self) -> (r: Vec<BehaviorPattern>)
        ensures
            pattern_views(r@) == self@.patterns(),
    {
        let mut r: Vec<BehaviorPattern> = Vec::new();
        push_fired(&mut r, self.ransomware());
        push_fired(&mut r, self.reverse_shell());
        push_fired(&mut r, self.dropper());
        push_fired(&mut r, self.keylogger());
        push_fired(&mut r, self.rootkit());
        assert(pattern_views(r@) =~= self@.patterns());
        r
    }

    /// Encrypts the files of its victim.
    pub fn ransomware(&self) -> (r: Option<BehaviorPattern>)
        ensures
            opt_pattern_view(r) == self@.ransomware(),
    {
        let mut ind: Vec<String> = Vec::new();
        push_labelled(&mut ind, "encryption API: ", self.imports_any(&ENCRYPTION_APIS));
        push_labelled(&mut ind, "file enumeration: ", self.imports_any(&FILE_ENUMERATION_APIS));
        push_labelled(
            &mut ind,
            "ransom note string: ",
            self.string_contains_any(&RANSOM_NOTE_STRINGS),
        );
        push_flagged(&mut ind, "high-entropy / packed payload", self.high_entropy);
        assert(views(ind@) =~= self@.ransomware_indicators());
        build_pattern(
            "Ransomware",
            "file-encryption",
            "Encrypts victim files: crypto APIs + file enumeration + ransom note strings + high entropy",
            Severity::Critical,
            &RANSOMWARE_TECHNIQUES,
            ind,
            4,
        )
    }

    /// Connects out and hands a shell to the other side.
    pub fn reverse_shell(&self) -> (r: Option<BehaviorPattern>)
        ensures
            opt_pattern_view(r) == self@.reverse_shell(),
    {
        let mut ind: Vec<String> = Vec::new();
        push_labelled(&mut ind, "socket API: ", self.imports_any(&SOCKET_APIS));
        push_labelled(&mut ind, "command execution: ", self.imports_any(&COMMAND_EXECUTION_APIS));
        let shell = self.has_category(StringCategory::ShellCommand) || self.string_contains_any(
            &SHELL_STRINGS,
        ).is_some();
        push_flagged(&mut ind, "shell command string", shell);
        push_labelled(&mut ind, "fd redirection: ", self.imports_any(&FD_REDIRECTION_APIS));
        assert(views(ind@) =~= self@.reverse_shell_indicators());
        build_pattern(
            "Reverse Shell",
            "remote-access",
            "Connects out and pipes a shell: socket + command execution + shell strings + fd redirection",
            Severity::Critical,
            &REVERSE_SHELL_TECHNIQUES,
            ind,
            4,
        )
    }

    /// Fetches or unpacks a second stage and runs it.
    pub fn dropper(&self) -> (r: Option<BehaviorPattern>)
        ensures
            opt_pattern_view(r) == self@.dropper(),
    {
        let mut ind: Vec<String> = Vec::new();
        let downloads = self.imports_any(&DOWNLOAD_APIS).is_some() || self.has_category(
            StringCategory::Url,
        ) || self.string_contains_any(&DOWNLOAD_STRINGS).is_some();
        push_flagged(&mut ind, "download capability", downloads);
        push_flagged(
            &mut ind,
            "writes files to disk",
            self.imports_any(&FILE_WRITE_APIS).is_some(),
        );
        push_flagged(
            &mut ind,
            "executes payload",
            self.imports_any(&PAYLOAD_EXECUTION_APIS).is_some(),
        );
        push_flagged(&mut ind, "embedded high-entropy payload", self.high_entropy);
        let minimal = self.import_count > 0 && self.import_count < DROPPER_MAX_IMPORTS;
        let text = "minimal imports (".to_string().concat(
            decimal_text(self.import_count).as_str(),
        ).concat(")");
        push_flagged(&mut ind, text.as_str(), minimal);
        assert(views(ind@) =~= self@.dropper_indicators());
        build_pattern(
            "Dropper",
            "delivery",
            "Downloads/writes and executes a second-stage payload",
            Severity::High,
            &DROPPER_TECHNIQUES,
            ind,
            5,
        )
    }

    /// Records keystrokes.
    pub fn keylogger(&self) -> (r: Option<BehaviorPattern>)
        ensures
            opt_pattern_view(r) == self@.keylogger(),
    {
        let mut ind: Vec<String> = Vec::new();
        push_labelled(&mut ind, "keyboard capture: ", self.imports_any(&KEYBOARD_APIS));
        push_flagged(&mut ind, "logs to a file", self.imports_any(&LOG_FILE_APIS).is_some());
        let persists = self.imports_any(&PERSISTENCE_APIS).is_some() || self.has_category(
            StringCategory::PersistencePath,
        );
        push_flagged(&mut ind, "persistence mechanism", persists);
        push_flagged(
            &mut ind,
            "network exfiltration",
            self.imports_any(&EXFILTRATION_APIS).is_some(),
        );
        assert(views(ind@) =~= self@.keylogger_indicators());
        build_pattern(
            "Keylogger",
            "collection",
            "Captures keystrokes, logs them, and persists",
            Severity::High,
            &KEYLOGGER_TECHNIQUES,
            ind,
            4,
        )
    }

    /// Manipulates the kernel or other processes and hides.
    pub fn rootkit(&self) -> (r: Option<BehaviorPattern>)
        ensures
            opt_pattern_view(r) == self@.rootkit(),
    {
        let mut ind: Vec<String> = Vec::new();
        push_labelled(&mut ind, "process manipulation: ", self.imports_any(&PROCESS_APIS));
        push_labelled(
            &mut ind,
            "kernel module string: ",
            self.string_contains_any(&KERNEL_MODULE_STRINGS),
        );
        push_labelled(&mut ind, "hiding artifact: ", self.string_contains_any(&HIDING_STRINGS));
        push_flagged(
            &mut ind,
            "runtime symbol resolution",
            self.imports_any(&SYMBOL_RESOLUTION_APIS).is_some(),
        );
        assert(views(ind@) =~= self@.rootkit_indicators());
        build_pattern(
            "Rootkit",
            "defense-evasion",
            "Manipulates the kernel/processes and hides its presence",
            Severity::Critical,
            &ROOTKIT_TECHNIQUES,
            ind,
            4,
        )
    }
}

/// Whether an import is an API, letter case and one trailing `A` or `W` aside.
pub fn api_matches(import_name: &str, api: &str) -> (r: bool)
    ensures
        r == api_match(import_name@, api@),
{
    names_api(import_name, api)
}

// ---------------------------------------------------------------------------
// The pass
// ---------------------------------------------------------------------------

/// The pass.
pub struct BehaviorPass;

/// The passes whose results this one reads.
pub const DEPENDENCIES: [&'static str; 3] = ["imports", "strings", "entropy"];

impl Sealed for BehaviorPass {

}

impl AnalysisPass for BehaviorPass {
    open spec fn pass_name(&self) -> Seq<char> {
        "behavior"@
    }

    open spec fn pass_dependencies(&self) -> Seq<Seq<char>> {
        seq!["imports"@, "strings"@, "entropy"@]
    }

    /// The result of the pass is in place, and nothing else has changed.
    open spec fn outcome(&self, before: AnalysisContext, after: AnalysisContext) -> bool {
        &&& after.behavior_result matches Some(r)
        &&& pattern_views(r.patterns@) == context_signals(before).patterns()
        &&& after.import_result == before.import_result
        &&& after.string_result == before.string_result
        &&& after.entropy_result == before.entropy_result
        &&& after.sandbox_result == before.sandbox_result
    }

    fn name(&self) -> (r: &'static str) {
        "behavior"
    }

    fn dependencies(&self) -> (r: &[&'static str]) {
        let r: &[&'static str] = &DEPENDENCIES;
        assert(str_views(r@) =~= seq!["imports"@, "strings"@, "entropy"@]);
        r
    }

    fn run(&self, ctx: &mut AnalysisContext) -> (r: Result<(), EngineError>)
        ensures
            r is Ok,
    {
        let signals = Signals::from_context(ctx);
        ctx.behavior_result = Some(BehaviorResult { patterns: signals.detect_patterns() });
        Ok(())
    }
}

} // verus!
