//! What each detector decides and reports, said of the signals themselves: which imports,
//! strings and categories there are, and where the first of them stands.

use vstd::prelude::*;
use crate::context::{AnalysisContext, EntropyResult};
use crate::laws::{confidence_by_indicators, evidence_is_first_matching_import};
use crate::laws::evidence_is_first_matching_string;
use crate::matching::{api_match, first_import, matches_any};
use crate::pass::AnalysisPass;
use crate::passes::behavior::{BehaviorPass, BehaviorPattern, Signals, contains_any};
use crate::passes::behavior::{context_signals, fired, flagged, is_high_entropy, labelled};
use crate::passes::behavior::{opt_pattern_view, pattern_views, threshold_by_representation};
use crate::passes::behavior::{COMMAND_EXECUTION_APIS, DOWNLOAD_APIS, DOWNLOAD_STRINGS};
use crate::passes::behavior::{DROPPER_TECHNIQUES, ENCRYPTION_APIS, EXFILTRATION_APIS};
use crate::passes::behavior::{FD_REDIRECTION_APIS, FILE_ENUMERATION_APIS, FILE_WRITE_APIS};
use crate::passes::behavior::{HIDING_STRINGS, KERNEL_MODULE_STRINGS, KEYBOARD_APIS};
use crate::passes::behavior::{KEYLOGGER_TECHNIQUES, LOG_FILE_APIS, PAYLOAD_EXECUTION_APIS};
use crate::passes::behavior::{PERSISTENCE_APIS, PROCESS_APIS, RANSOMWARE_TECHNIQUES};
use crate::passes::behavior::{RANSOM_NOTE_STRINGS, REVERSE_SHELL_TECHNIQUES};
use crate::passes::behavior::{ROOTKIT_TECHNIQUES, SHELL_STRINGS, SOCKET_APIS};
use crate::passes::behavior::SYMBOL_RESOLUTION_APIS;
use crate::text::{decimal, is_substring, lowercase, opt_view};
use crate::text::{str_views, views};
use crate::types::{Severity, StringCategory};

verus! {

// ---------------------------------------------------------------------------
// What can be said of signals
// ---------------------------------------------------------------------------

/// Some import is one of the APIs.
pub open spec fn imports_one_of(functions: Seq<String>, apis: Seq<Seq<char>>) -> bool {
    exists|i: int, j: int|
        0 <= i < functions.len() && 0 <= j < apis.len() && #[trigger] api_match(
            functions[i]@,
            apis[j],
        )
}

/// The import at `i` is one of the APIs, and none before it is.
pub open spec fn is_first_import(functions: Seq<String>, apis: Seq<Seq<char>>, i: int) -> bool {
    &&& 0 <= i < functions.len()
    &&& exists|j: int| 0 <= j < apis.len() && #[trigger] api_match(functions[i]@, apis[j])
    &&& forall|k: int, j: int|
        0 <= k < i && 0 <= j < apis.len() ==> !#[trigger] api_match(functions[k]@, apis[j])
}

/// `text` is the label with the first import behind it that is one of the APIs.
pub open spec fn quotes_import(
    text: Seq<char>,
    label: Seq<char>,
    functions: Seq<String>,
    apis: Seq<Seq<char>>,
) -> bool {
    exists|i: int| #[trigger] is_first_import(functions, apis, i) && text == label + functions[i]@
}

/// Some string value contains one of the needles.
pub open spec fn holds_one_of(values: Seq<String>, needles: Seq<Seq<char>>) -> bool {
    exists|i: int, j: int|
        0 <= i < values.len() && 0 <= j < needles.len() && #[trigger] is_substring(
            needles[j],
            values[i]@,
        )
}

/// The value at `i` contains one of the needles, and none before it does.
pub open spec fn is_first_string(values: Seq<String>, needles: Seq<Seq<char>>, i: int) -> bool {
    &&& 0 <= i < values.len()
    &&& exists|j: int| 0 <= j < needles.len() && #[trigger] is_substring(needles[j], values[i]@)
    &&& forall|k: int, j: int|
        0 <= k < i && 0 <= j < needles.len() ==> !#[trigger] is_substring(needles[j], values[k]@)
}

/// `text` is the label with the first value behind it that contains one of the needles.
pub open spec fn quotes_string(
    text: Seq<char>,
    label: Seq<char>,
    values: Seq<String>,
    needles: Seq<Seq<char>>,
) -> bool {
    exists|i: int| #[trigger] is_first_string(values, needles, i) && text == label + values[i]@
}

/// Some string is of the category.
pub open spec fn some_of_category(categories: Seq<StringCategory>, cat: StringCategory) -> bool {
    exists|i: int| 0 <= i < categories.len() && #[trigger] categories[i] == cat
}

/// One for what holds, zero for what does not.
pub open spec fn tally(b: bool) -> nat {
    if b {
        1
    } else {
        0
    }
}

/// One of the indicators of the pattern is `text`.
pub open spec fn mentions(p: BehaviorPattern, text: Seq<char>) -> bool {
    exists|k: int| 0 <= k < p.indicators@.len() && #[trigger] p.indicators@[k]@ == text
}

/// The list holds these texts, in this order.
pub open spec fn lists(v: Seq<String>, texts: Seq<Seq<char>>) -> bool {
    &&& v.len() == texts.len()
    &&& forall|i: int| 0 <= i < v.len() ==> #[trigger] v[i]@ == texts[i]
}

// ---------------------------------------------------------------------------
// Queries
// ---------------------------------------------------------------------------

/// The answer of `imports_any` is an import that is one of the APIs, with none before it
/// that is; there is no answer exactly when no import is one of them.
pub proof fn import_query_answers_first(
    functions: Seq<String>,
    apis: Seq<Seq<char>>,
    r: Option<String>,
)
    requires
        opt_view(r) == first_import(views(functions), apis),
    ensures
        r is Some <==> imports_one_of(functions, apis),
        r matches Some(x) ==> exists|i: int|
            #[trigger] is_first_import(functions, apis, i) && functions[i]@ == x@,
{
    import_found(functions, apis);
}

/// The answer of `string_contains_any` is a value that contains one of the needles, with
/// none before it that does; there is no answer exactly when no value contains any.
pub proof fn string_query_answers_first(s: Signals, needles: Seq<&str>, r: Option<String>)
    requires
        opt_view(r) == s@.string(needles),
    ensures
        r is Some <==> holds_one_of(s.string_values@, str_views(needles)),
        r matches Some(x) ==> exists|i: int|
            #[trigger] is_first_string(s.string_values@, str_views(needles), i)
                && s.string_values@[i]@ == x@,
{
    string_found(s, needles);
}

/// The answer of `imports_any` on signals speaks of the functions of the signals.
pub proof fn imports_any_answers_first(s: Signals, apis: Seq<&str>, r: Option<String>)
    requires
        opt_view(r) == s@.import(apis),
    ensures
        r is Some <==> imports_one_of(s.functions@, str_views(apis)),
        r matches Some(x) ==> exists|i: int|
            #[trigger] is_first_import(s.functions@, str_views(apis), i) && s.functions@[i]@
                == x@,
{
    import_found(s.functions@, str_views(apis));
}

/// `has_category` holds exactly when some string is of the category.
pub proof fn category_query_is_existence(s: Signals, cat: StringCategory, r: bool)
    requires
        r == s@.has(cat),
    ensures
        r <==> some_of_category(s.categories@, cat),
{
    if r {
        let i = choose|i: int| 0 <= i < s.categories@.len() && s.categories@[i] == cat;
        assert(s.categories@[i] == cat);
    }
}

/// The first import found is one of the APIs with none before it; there is one exactly
/// when some import is one of them.
pub proof fn import_found(functions: Seq<String>, apis: Seq<Seq<char>>)
    ensures
        first_import(views(functions), apis) is Some <==> imports_one_of(functions, apis),
        first_import(views(functions), apis) matches Some(x) ==> exists|i: int|
            #[trigger] is_first_import(functions, apis, i) && functions[i]@ == x,
{
    let names = views(functions);
    evidence_is_first_matching_import(names, apis);
    assert forall|i: int| 0 <= i < functions.len() implies #[trigger] names[i]
        == functions[i]@ by {}
    if first_import(names, apis) is Some {
        let x = first_import(names, apis)->0;
        let i = choose|i: int|
            {
                &&& 0 <= i < names.len()
                &&& #[trigger] names[i] == x
                &&& matches_any(x, apis)
                &&& forall|k: int| 0 <= k < i ==> !matches_any(#[trigger] names[k], apis)
            };
        let j = choose|j: int| 0 <= j < apis.len() && api_match(x, #[trigger] apis[j]);
        assert(api_match(functions[i]@, apis[j]));
        assert forall|k: int, j: int|
            0 <= k < i && 0 <= j < apis.len() implies !#[trigger] api_match(
            functions[k]@,
            apis[j],
        ) by {
            assert(!matches_any(names[k], apis));
            if api_match(functions[k]@, apis[j]) {
                assert(api_match(names[k], apis[j]));
            }
        }
        assert(is_first_import(functions, apis, i));
    } else if imports_one_of(functions, apis) {
        let (i, j) = choose|i: int, j: int|
            0 <= i < functions.len() && 0 <= j < apis.len() && #[trigger] api_match(
                functions[i]@,
                apis[j],
            );
        assert(api_match(names[i], apis[j]));
        assert(matches_any(names[i], apis));
    }
}

proof fn string_found(s: Signals, needles: Seq<&str>)
    ensures
        s@.string(needles) is Some <==> holds_one_of(s.string_values@, str_views(needles)),
        s@.string(needles) matches Some(x) ==> exists|i: int|
            #[trigger] is_first_string(s.string_values@, str_views(needles), i)
                && s.string_values@[i]@ == x,
{
    let list = str_views(needles);
    let strings = s.string_values@;
    let values = s@.string_values;
    evidence_is_first_matching_string(s@, needles);
    assert forall|i: int| 0 <= i < strings.len() implies #[trigger] values[i]
        == strings[i]@ by {}
    if s@.string(needles) is Some {
        let x = s@.string(needles)->0;
        let i = choose|i: int|
            {
                &&& 0 <= i < values.len()
                &&& #[trigger] values[i] == x
                &&& contains_any(x, list)
                &&& forall|k: int| 0 <= k < i ==> !contains_any(#[trigger] values[k], list)
            };
        let j = choose|j: int| 0 <= j < list.len() && is_substring(#[trigger] list[j], x);
        assert(is_substring(list[j], strings[i]@));
        assert forall|k: int, j: int|
            0 <= k < i && 0 <= j < list.len() implies !#[trigger] is_substring(
            list[j],
            strings[k]@,
        ) by {
            assert(!contains_any(values[k], list));
            if is_substring(list[j], strings[k]@) {
                assert(is_substring(list[j], values[k]));
            }
        }
        assert(is_first_string(strings, list, i));
    } else if holds_one_of(strings, list) {
        let (i, j) = choose|i: int, j: int|
            0 <= i < strings.len() && 0 <= j < list.len() && #[trigger] is_substring(
                list[j],
                strings[i]@,
            );
        assert(is_substring(list[j], values[i]));
        assert(contains_any(values[i], list));
    }
}

// ---------------------------------------------------------------------------
// The lists
// ---------------------------------------------------------------------------

/// The lists that the detectors look through, and the identifiers they report.
pub proof fn lists_are_complete()
    ensures
        str_views(ENCRYPTION_APIS@) == seq![
            "CryptEncrypt"@,
            "CryptDeriveKey"@,
            "CryptGenKey"@,
            "BCryptEncrypt"@,
            "EVP_EncryptInit"@,
            "EVP_EncryptInit_ex"@,
            "AES_encrypt"@,
            "AES_set_encrypt_key"@,
        ],
        str_views(FILE_ENUMERATION_APIS@) == seq![
            "FindFirstFile"@,
            "FindNextFile"@,
            "readdir"@,
            "opendir"@,
            "nftw"@,
        ],
        str_views(RANSOM_NOTE_STRINGS@) == seq![
            "your files have been encrypted"@,
            "ransom"@,
            ".locked"@,
            "decrypt your files"@,
            "bitcoin"@,
            "recover your files"@,
            "readme.txt"@,
        ],
        str_views(RANSOMWARE_TECHNIQUES@) == seq![
            "T1486"@,
            "T1083"@,
        ],
        str_views(SOCKET_APIS@) == seq![
            "socket"@,
            "connect"@,
            "WSASocket"@,
            "WSAConnect"@,
            "inet_pton"@,
            "inet_addr"@,
        ],
        str_views(COMMAND_EXECUTION_APIS@) == seq![
            "execve"@,
            "system"@,
            "CreateProcess"@,
            "ShellExecute"@,
            "WinExec"@,
            "posix_spawn"@,
            "popen"@,
        ],
        str_views(SHELL_STRINGS@) == seq![
            "/bin/sh"@,
            "/bin/bash"@,
            "cmd.exe"@,
        ],
        str_views(FD_REDIRECTION_APIS@) == seq![
            "dup2"@,
            "dup3"@,
        ],
        str_views(REVERSE_SHELL_TECHNIQUES@) == seq![
            "T1059"@,
            "T1071"@,
        ],
        str_views(DOWNLOAD_APIS@) == seq![
            "URLDownloadToFile"@,
            "InternetOpen"@,
            "WinHttpOpen"@,
            "curl_easy_init"@,
        ],
        str_views(DOWNLOAD_STRINGS@) == seq![
            "wget "@,
            "curl "@,
            "http://"@,
            "https://"@,
        ],
        str_views(FILE_WRITE_APIS@) == seq![
            "WriteFile"@,
            "fwrite"@,
            "CreateFile"@,
            "fopen"@,
            "open"@,
        ],
        str_views(PAYLOAD_EXECUTION_APIS@) == seq![
            "ShellExecute"@,
            "WinExec"@,
            "system"@,
            "CreateProcess"@,
            "execve"@,
        ],
        str_views(DROPPER_TECHNIQUES@) == seq![
            "T1105"@,
        ],
        str_views(KEYBOARD_APIS@) == seq![
            "SetWindowsHookEx"@,
            "GetAsyncKeyState"@,
            "GetKeyState"@,
            "GetKeyboardState"@,
            "RegisterRawInputDevices"@,
            "GetRawInputData"@,
        ],
        str_views(LOG_FILE_APIS@) == seq![
            "WriteFile"@,
            "fwrite"@,
            "fopen"@,
            "CreateFile"@,
        ],
        str_views(PERSISTENCE_APIS@) == seq![
            "RegSetValueEx"@,
            "CreateService"@,
        ],
        str_views(EXFILTRATION_APIS@) == seq![
            "send"@,
            "InternetOpen"@,
            "socket"@,
            "WSASend"@,
        ],
        str_views(KEYLOGGER_TECHNIQUES@) == seq![
            "T1056.001"@,
        ],
        str_views(PROCESS_APIS@) == seq![
            "ptrace"@,
            "process_vm_writev"@,
            "process_vm_readv"@,
        ],
        str_views(KERNEL_MODULE_STRINGS@) == seq![
            "insmod"@,
            "init_module"@,
            "/dev/kmem"@,
            "/dev/mem"@,
            "kernel module"@,
            "/proc/modules"@,
            "rmmod"@,
        ],
        str_views(HIDING_STRINGS@) == seq![
            "/tmp/."@,
            "/dev/shm/"@,
            "ld_preload"@,
            "/.hidden"@,
        ],
        str_views(SYMBOL_RESOLUTION_APIS@) == seq![
            "dlopen"@,
            "dlsym"@,
        ],
        str_views(ROOTKIT_TECHNIQUES@) == seq![
            "T1014"@,
            "T1055.008"@,
        ],
{
    assert(str_views(ENCRYPTION_APIS@) =~= seq![
        "CryptEncrypt"@,
        "CryptDeriveKey"@,
        "CryptGenKey"@,
        "BCryptEncrypt"@,
        "EVP_EncryptInit"@,
        "EVP_EncryptInit_ex"@,
        "AES_encrypt"@,
        "AES_set_encrypt_key"@,
    ]);
    assert(str_views(FILE_ENUMERATION_APIS@) =~= seq![
        "FindFirstFile"@,
        "FindNextFile"@,
        "readdir"@,
        "opendir"@,
        "nftw"@,
    ]);
    assert(str_views(RANSOM_NOTE_STRINGS@) =~= seq![
        "your files have been encrypted"@,
        "ransom"@,
        ".locked"@,
        "decrypt your files"@,
        "bitcoin"@,
        "recover your files"@,
        "readme.txt"@,
    ]);
    assert(str_views(RANSOMWARE_TECHNIQUES@) =~= seq![
        "T1486"@,
        "T1083"@,
    ]);
    assert(str_views(SOCKET_APIS@) =~= seq![
        "socket"@,
        "connect"@,
        "WSASocket"@,
        "WSAConnect"@,
        "inet_pton"@,
        "inet_addr"@,
    ]);
    assert(str_views(COMMAND_EXECUTION_APIS@) =~= seq![
        "execve"@,
        "system"@,
        "CreateProcess"@,
        "ShellExecute"@,
        "WinExec"@,
        "posix_spawn"@,
        "popen"@,
    ]);
    assert(str_views(SHELL_STRINGS@) =~= seq![
        "/bin/sh"@,
        "/bin/bash"@,
        "cmd.exe"@,
    ]);
    assert(str_views(FD_REDIRECTION_APIS@) =~= seq![
        "dup2"@,
        "dup3"@,
    ]);
    assert(str_views(REVERSE_SHELL_TECHNIQUES@) =~= seq![
        "T1059"@,
        "T1071"@,
    ]);
    assert(str_views(DOWNLOAD_APIS@) =~= seq![
        "URLDownloadToFile"@,
        "InternetOpen"@,
        "WinHttpOpen"@,
        "curl_easy_init"@,
    ]);
    assert(str_views(DOWNLOAD_STRINGS@) =~= seq![
        "wget "@,
        "curl "@,
        "http://"@,
        "https://"@,
    ]);
    assert(str_views(FILE_WRITE_APIS@) =~= seq![
        "WriteFile"@,
        "fwrite"@,
        "CreateFile"@,
        "fopen"@,
        "open"@,
    ]);
    assert(str_views(PAYLOAD_EXECUTION_APIS@) =~= seq![
        "ShellExecute"@,
        "WinExec"@,
        "system"@,
        "CreateProcess"@,
        "execve"@,
    ]);
    assert(str_views(DROPPER_TECHNIQUES@) =~= seq![
        "T1105"@,
    ]);
    assert(str_views(KEYBOARD_APIS@) =~= seq![
        "SetWindowsHookEx"@,
        "GetAsyncKeyState"@,
        "GetKeyState"@,
        "GetKeyboardState"@,
        "RegisterRawInputDevices"@,
        "GetRawInputData"@,
    ]);
    assert(str_views(LOG_FILE_APIS@) =~= seq![
        "WriteFile"@,
        "fwrite"@,
        "fopen"@,
        "CreateFile"@,
    ]);
    assert(str_views(PERSISTENCE_APIS@) =~= seq![
        "RegSetValueEx"@,
        "CreateService"@,
    ]);
    assert(str_views(EXFILTRATION_APIS@) =~= seq![
        "send"@,
        "InternetOpen"@,
        "socket"@,
        "WSASend"@,
    ]);
    assert(str_views(KEYLOGGER_TECHNIQUES@) =~= seq![
        "T1056.001"@,
    ]);
    assert(str_views(PROCESS_APIS@) =~= seq![
        "ptrace"@,
        "process_vm_writev"@,
        "process_vm_readv"@,
    ]);
    assert(str_views(KERNEL_MODULE_STRINGS@) =~= seq![
        "insmod"@,
        "init_module"@,
        "/dev/kmem"@,
        "/dev/mem"@,
        "kernel module"@,
        "/proc/modules"@,
        "rmmod"@,
    ]);
    assert(str_views(HIDING_STRINGS@) =~= seq![
        "/tmp/."@,
        "/dev/shm/"@,
        "ld_preload"@,
        "/.hidden"@,
    ]);
    assert(str_views(SYMBOL_RESOLUTION_APIS@) =~= seq![
        "dlopen"@,
        "dlsym"@,
    ]);
    assert(str_views(ROOTKIT_TECHNIQUES@) =~= seq![
        "T1014"@,
        "T1055.008"@,
    ]);
}

// ---------------------------------------------------------------------------
// Detectors
// ---------------------------------------------------------------------------

/// `x` is the one element of one of the parts.
spec fn part_of(
    a: Seq<Seq<char>>,
    b: Seq<Seq<char>>,
    c: Seq<Seq<char>>,
    d: Seq<Seq<char>>,
    e: Seq<Seq<char>>,
    x: Seq<char>,
) -> bool {
    ||| a.len() == 1 && x == a[0]
    ||| b.len() == 1 && x == b[0]
    ||| c.len() == 1 && x == c[0]
    ||| d.len() == 1 && x == d[0]
    ||| e.len() == 1 && x == e[0]
}

proof fn one_of_parts(
    a: Seq<Seq<char>>,
    b: Seq<Seq<char>>,
    c: Seq<Seq<char>>,
    d: Seq<Seq<char>>,
    e: Seq<Seq<char>>,
    k: int,
)
    requires
        a.len() <= 1,
        b.len() <= 1,
        c.len() <= 1,
        d.len() <= 1,
        e.len() <= 1,
        0 <= k < (a + b + c + d + e).len(),
    ensures
        part_of(a, b, c, d, e, (a + b + c + d + e)[k]),
{
}

/// What a pattern mentions is one of the parts that its indicators are made of.
proof fn mention_is_part(
    p: BehaviorPattern,
    a: Seq<Seq<char>>,
    b: Seq<Seq<char>>,
    c: Seq<Seq<char>>,
    d: Seq<Seq<char>>,
    e: Seq<Seq<char>>,
    text: Seq<char>,
)
    requires
        a.len() <= 1,
        b.len() <= 1,
        c.len() <= 1,
        d.len() <= 1,
        e.len() <= 1,
        views(p.indicators@) == a + b + c + d + e,
    ensures
        mentions(p, text) ==> part_of(a, b, c, d, e, text),
{
    if mentions(p, text) {
        let k = choose|k: int|
            0 <= k < p.indicators@.len() && #[trigger] p.indicators@[k]@ == text;
        assert(views(p.indicators@)[k] == text);
        one_of_parts(a, b, c, d, e, k);
    }
}

/// Ransomware: the pattern fires exactly when at least three of these hold: an imported
/// encryption API, an imported file enumeration API, a word of a ransom note, high entropy.
/// It then names what it is, mentions each condition that holds, in this order and nothing
/// else, and quotes the first import or string that meets a condition.
pub proof fn ransomware_is_what_it_says(s: Signals, r: Option<BehaviorPattern>)
    requires
        opt_pattern_view(r) == s@.ransomware(),
    ensures
        ({
            let c0 = imports_one_of(s.functions@, str_views(ENCRYPTION_APIS@));
            let c1 = imports_one_of(s.functions@, str_views(FILE_ENUMERATION_APIS@));
            let c2 = holds_one_of(s.string_values@, str_views(RANSOM_NOTE_STRINGS@));
            let c3 = s.high_entropy;
            let n1 = (tally(c0)) as int;
            let n2 = (tally(c0) + tally(c1)) as int;
            let n3 = (tally(c0) + tally(c1) + tally(c2)) as int;
            let count = tally(c0) + tally(c1) + tally(c2) + tally(c3);
            &&& r is Some <==> count >= 3
            &&& r matches Some(p) ==> {
                &&& p.name@ == "Ransomware"@
                &&& p.category@ == "file-encryption"@
                &&& p.description@ == "Encrypts victim files: crypto APIs + file enumeration + ransom note strings + high entropy"@
                &&& p.severity == Severity::Critical
                &&& lists(p.mitre_ids@, seq!["T1486"@, "T1083"@])
                &&& p.confidence == if count == 3 {
                    75int
                } else {
                    100
                }
                &&& p.indicators@.len() == count
                &&& c0 ==> quotes_import(
                    p.indicators@[0]@,
                    "encryption API: "@,
                    s.functions@,
                    str_views(ENCRYPTION_APIS@),
                )
                &&& c1 ==> quotes_import(
                    p.indicators@[n1]@,
                    "file enumeration: "@,
                    s.functions@,
                    str_views(FILE_ENUMERATION_APIS@),
                )
                &&& c2 ==> quotes_string(
                    p.indicators@[n2]@,
                    "ransom note string: "@,
                    s.string_values@,
                    str_views(RANSOM_NOTE_STRINGS@),
                )
                &&& c3 ==> p.indicators@[n3]@ == "high-entropy / packed payload"@
                &&& mentions(p, "high-entropy / packed payload"@) <==> c3
            }
        }),
{
    lists_are_complete();
    confidence_by_indicators(s@);
    import_found(s.functions@, str_views(ENCRYPTION_APIS@));
    import_found(s.functions@, str_views(FILE_ENUMERATION_APIS@));
    string_found(s, RANSOM_NOTE_STRINGS@);
    let c0 = imports_one_of(s.functions@, str_views(ENCRYPTION_APIS@));
    let c1 = imports_one_of(s.functions@, str_views(FILE_ENUMERATION_APIS@));
    let c2 = holds_one_of(s.string_values@, str_views(RANSOM_NOTE_STRINGS@));
    let c3 = s.high_entropy;
    let p0 = labelled("encryption API: "@, s@.import(ENCRYPTION_APIS@));
    let p1 = labelled("file enumeration: "@, s@.import(FILE_ENUMERATION_APIS@));
    let p2 = labelled("ransom note string: "@, s@.string(RANSOM_NOTE_STRINGS@));
    let p3 = flagged("high-entropy / packed payload"@, c3);
    assert(p0.len() == tally(c0));
    assert(p1.len() == tally(c1));
    assert(p2.len() == tally(c2));
    assert(p3.len() == tally(c3));
    assert(s@.ransomware_indicators() == p0 + p1 + p2 + p3);
    if r is Some {
        let p = r->0;
        let ind = s@.ransomware_indicators();
        assert(views(p.indicators@) == ind);
        assert forall|k: int| 0 <= k < ind.len() implies #[trigger] p.indicators@[k]@
            == ind[k] by {
            assert(views(p.indicators@)[k] == ind[k]);
        }
        assert(views(p.mitre_ids@) == seq!["T1486"@, "T1083"@]);
        assert forall|k: int| 0 <= k < p.mitre_ids@.len() implies #[trigger] p.mitre_ids@[k]@
            == seq!["T1486"@, "T1083"@][k] by {
            assert(views(p.mitre_ids@)[k] == seq!["T1486"@, "T1083"@][k]);
        }
        if c0 {
            assert(ind[0] == p0[0]);
        }
        if c1 {
            assert(ind[(tally(c0)) as int] == p1[0]);
        }
        if c2 {
            assert(ind[(tally(c0) + tally(c1)) as int] == p2[0]);
        }
        if c3 {
            assert(ind[(tally(c0) + tally(c1) + tally(c2)) as int] == p3[0]);
        }
        reveal_strlit("encryption API: ");
        reveal_strlit("file enumeration: ");
        reveal_strlit("ransom note string: ");
        reveal_strlit("high-entropy / packed payload");
        assert(p0.len() == 1 ==> p0[0][0] == 'e' && p0[0][1] == 'n');
        assert(p1.len() == 1 ==> p1[0][0] == 'f' && p1[0][1] == 'i');
        assert(p2.len() == 1 ==> p2[0][0] == 'r' && p2[0][1] == 'a');
        assert(p3.len() == 1 ==> p3[0][0] == 'h' && p3[0][1] == 'i');
        let p4: Seq<Seq<char>> = seq![];
        assert(ind =~= p0 + p1 + p2 + p3 + p4);
        mention_is_part(p, p0, p1, p2, p3, p4, "high-entropy / packed payload"@);
    }
}

/// Reverse Shell: the pattern fires exactly when at least three of these hold: an imported
/// connection API, an imported command execution API, a shell command or the name of a
/// shell, an imported redirection API. It then names what it is, mentions each condition
/// that holds, in this order and nothing else, and quotes the first import or string that
/// meets a condition.
pub proof fn reverse_shell_is_what_it_says(s: Signals, r: Option<BehaviorPattern>)
    requires
        opt_pattern_view(r) == s@.reverse_shell(),
    ensures
        ({
            let c0 = imports_one_of(s.functions@, str_views(SOCKET_APIS@));
            let c1 = imports_one_of(s.functions@, str_views(COMMAND_EXECUTION_APIS@));
            let c2 = some_of_category(s.categories@, StringCategory::ShellCommand)
                || holds_one_of(s.string_values@, str_views(SHELL_STRINGS@));
            let c3 = imports_one_of(s.functions@, str_views(FD_REDIRECTION_APIS@));
            let n1 = (tally(c0)) as int;
            let n2 = (tally(c0) + tally(c1)) as int;
            let n3 = (tally(c0) + tally(c1) + tally(c2)) as int;
            let count = tally(c0) + tally(c1) + tally(c2) + tally(c3);
            &&& r is Some <==> count >= 3
            &&& r matches Some(p) ==> {
                &&& p.name@ == "Reverse Shell"@
                &&& p.category@ == "remote-access"@
                &&& p.description@ == "Connects out and pipes a shell: socket + command execution + shell strings + fd redirection"@
                &&& p.severity == Severity::Critical
                &&& lists(p.mitre_ids@, seq!["T1059"@, "T1071"@])
                &&& p.confidence == if count == 3 {
                    75int
                } else {
                    100
                }
                &&& p.indicators@.len() == count
                &&& c0 ==> quotes_import(
                    p.indicators@[0]@,
                    "socket API: "@,
                    s.functions@,
                    str_views(SOCKET_APIS@),
                )
                &&& c1 ==> quotes_import(
                    p.indicators@[n1]@,
                    "command execution: "@,
                    s.functions@,
                    str_views(COMMAND_EXECUTION_APIS@),
                )
                &&& c2 ==> p.indicators@[n2]@ == "shell command string"@
                &&& c3 ==> quotes_import(
                    p.indicators@[n3]@,
                    "fd redirection: "@,
                    s.functions@,
                    str_views(FD_REDIRECTION_APIS@),
                )
                &&& mentions(p, "shell command string"@) <==> c2
            }
        }),
{
    lists_are_complete();
    confidence_by_indicators(s@);
    import_found(s.functions@, str_views(SOCKET_APIS@));
    import_found(s.functions@, str_views(COMMAND_EXECUTION_APIS@));
    string_found(s, SHELL_STRINGS@);
    import_found(s.functions@, str_views(FD_REDIRECTION_APIS@));
    let cat = StringCategory::ShellCommand;
    category_query_is_existence(s, cat, s@.has(cat));
    let c0 = imports_one_of(s.functions@, str_views(SOCKET_APIS@));
    let c1 = imports_one_of(s.functions@, str_views(COMMAND_EXECUTION_APIS@));
    let c2 = some_of_category(s.categories@, StringCategory::ShellCommand)
        || holds_one_of(s.string_values@, str_views(SHELL_STRINGS@));
    let c3 = imports_one_of(s.functions@, str_views(FD_REDIRECTION_APIS@));
    let p0 = labelled("socket API: "@, s@.import(SOCKET_APIS@));
    let p1 = labelled("command execution: "@, s@.import(COMMAND_EXECUTION_APIS@));
    let p2 = flagged("shell command string"@, c2);
    let p3 = labelled("fd redirection: "@, s@.import(FD_REDIRECTION_APIS@));
    assert(p0.len() == tally(c0));
    assert(p1.len() == tally(c1));
    assert(p2.len() == tally(c2));
    assert(p3.len() == tally(c3));
    assert(s@.reverse_shell_indicators() == p0 + p1 + p2 + p3);
    if r is Some {
        let p = r->0;
        let ind = s@.reverse_shell_indicators();
        assert(views(p.indicators@) == ind);
        assert forall|k: int| 0 <= k < ind.len() implies #[trigger] p.indicators@[k]@
            == ind[k] by {
            assert(views(p.indicators@)[k] == ind[k]);
        }
        assert(views(p.mitre_ids@) == seq!["T1059"@, "T1071"@]);
        assert forall|k: int| 0 <= k < p.mitre_ids@.len() implies #[trigger] p.mitre_ids@[k]@
            == seq!["T1059"@, "T1071"@][k] by {
            assert(views(p.mitre_ids@)[k] == seq!["T1059"@, "T1071"@][k]);
        }
        if c0 {
            assert(ind[0] == p0[0]);
        }
        if c1 {
            assert(ind[(tally(c0)) as int] == p1[0]);
        }
        if c2 {
            assert(ind[(tally(c0) + tally(c1)) as int] == p2[0]);
        }
        if c3 {
            assert(ind[(tally(c0) + tally(c1) + tally(c2)) as int] == p3[0]);
        }
        reveal_strlit("socket API: ");
        reveal_strlit("command execution: ");
        reveal_strlit("shell command string");
        reveal_strlit("fd redirection: ");
        assert(p0.len() == 1 ==> p0[0][0] == 's' && p0[0][1] == 'o');
        assert(p1.len() == 1 ==> p1[0][0] == 'c' && p1[0][1] == 'o');
        assert(p2.len() == 1 ==> p2[0][0] == 's' && p2[0][1] == 'h');
        assert(p3.len() == 1 ==> p3[0][0] == 'f' && p3[0][1] == 'd');
        let p4: Seq<Seq<char>> = seq![];
        assert(ind =~= p0 + p1 + p2 + p3 + p4);
        mention_is_part(p, p0, p1, p2, p3, p4, "shell command string"@);
    }
}

/// Dropper: the pattern fires exactly when at least three of these hold: a download (an
/// API, a URL or a word of it), an API that writes files, an API that runs a payload, high
/// entropy, from 1 to 24 imports. It then names what it is, mentions each condition that
/// holds, in this order and nothing else, and quotes the first import or string that meets
/// a condition.
pub proof fn dropper_is_what_it_says(s: Signals, r: Option<BehaviorPattern>)
    requires
        opt_pattern_view(r) == s@.dropper(),
    ensures
        ({
            let c0 = imports_one_of(s.functions@, str_views(DOWNLOAD_APIS@))
                || some_of_category(s.categories@, StringCategory::Url)
                || holds_one_of(s.string_values@, str_views(DOWNLOAD_STRINGS@));
            let c1 = imports_one_of(s.functions@, str_views(FILE_WRITE_APIS@));
            let c2 = imports_one_of(s.functions@, str_views(PAYLOAD_EXECUTION_APIS@));
            let c3 = s.high_entropy;
            let c4 = 0 < s.import_count < 25;
            let n1 = (tally(c0)) as int;
            let n2 = (tally(c0) + tally(c1)) as int;
            let n3 = (tally(c0) + tally(c1) + tally(c2)) as int;
            let n4 = (tally(c0) + tally(c1) + tally(c2) + tally(c3)) as int;
            let count = tally(c0) + tally(c1) + tally(c2) + tally(c3) + tally(c4);
            let counted = "minimal imports ("@ + decimal(s.import_count as nat) + ")"@;
            &&& r is Some <==> count >= 3
            &&& r matches Some(p) ==> {
                &&& p.name@ == "Dropper"@
                &&& p.category@ == "delivery"@
                &&& p.description@ == "Downloads/writes and executes a second-stage payload"@
                &&& p.severity == Severity::High
                &&& lists(p.mitre_ids@, seq!["T1105"@])
                &&& p.confidence == if count == 3 {
                    60int
                } else if count == 4 {
                    80
                } else {
                    100
                }
                &&& p.indicators@.len() == count
                &&& c0 ==> p.indicators@[0]@ == "download capability"@
                &&& c1 ==> p.indicators@[n1]@ == "writes files to disk"@
                &&& c2 ==> p.indicators@[n2]@ == "executes payload"@
                &&& c3 ==> p.indicators@[n3]@ == "embedded high-entropy payload"@
                &&& c4 ==> p.indicators@[n4]@ == counted
                &&& mentions(p, "download capability"@) <==> c0
                &&& mentions(p, "writes files to disk"@) <==> c1
                &&& mentions(p, "executes payload"@) <==> c2
                &&& mentions(p, "embedded high-entropy payload"@) <==> c3
                &&& mentions(p, counted) <==> c4
            }
        }),
{
    lists_are_complete();
    confidence_by_indicators(s@);
    import_found(s.functions@, str_views(DOWNLOAD_APIS@));
    string_found(s, DOWNLOAD_STRINGS@);
    import_found(s.functions@, str_views(FILE_WRITE_APIS@));
    import_found(s.functions@, str_views(PAYLOAD_EXECUTION_APIS@));
    let cat = StringCategory::Url;
    category_query_is_existence(s, cat, s@.has(cat));
    let c0 = imports_one_of(s.functions@, str_views(DOWNLOAD_APIS@))
        || some_of_category(s.categories@, StringCategory::Url)
        || holds_one_of(s.string_values@, str_views(DOWNLOAD_STRINGS@));
    let c1 = imports_one_of(s.functions@, str_views(FILE_WRITE_APIS@));
    let c2 = imports_one_of(s.functions@, str_views(PAYLOAD_EXECUTION_APIS@));
    let c3 = s.high_entropy;
    let c4 = 0 < s.import_count < 25;
    let p0 = flagged("download capability"@, c0);
    let p1 = flagged("writes files to disk"@, c1);
    let p2 = flagged("executes payload"@, c2);
    let p3 = flagged("embedded high-entropy payload"@, c3);
    let p4 = flagged("minimal imports ("@ + decimal(s.import_count as nat) + ")"@, c4);
    assert(p0.len() == tally(c0));
    assert(p1.len() == tally(c1));
    assert(p2.len() == tally(c2));
    assert(p3.len() == tally(c3));
    assert(p4.len() == tally(c4));
    assert(s@.dropper_indicators() == p0 + p1 + p2 + p3 + p4);
    if r is Some {
        let p = r->0;
        let ind = s@.dropper_indicators();
        assert(views(p.indicators@) == ind);
        assert forall|k: int| 0 <= k < ind.len() implies #[trigger] p.indicators@[k]@
            == ind[k] by {
            assert(views(p.indicators@)[k] == ind[k]);
        }
        assert(views(p.mitre_ids@) == seq!["T1105"@]);
        assert forall|k: int| 0 <= k < p.mitre_ids@.len() implies #[trigger] p.mitre_ids@[k]@
            == seq!["T1105"@][k] by {
            assert(views(p.mitre_ids@)[k] == seq!["T1105"@][k]);
        }
        if c0 {
            assert(ind[0] == p0[0]);
        }
        if c1 {
            assert(ind[(tally(c0)) as int] == p1[0]);
        }
        if c2 {
            assert(ind[(tally(c0) + tally(c1)) as int] == p2[0]);
        }
        if c3 {
            assert(ind[(tally(c0) + tally(c1) + tally(c2)) as int] == p3[0]);
        }
        if c4 {
            assert(ind[(tally(c0) + tally(c1) + tally(c2) + tally(c3)) as int] == p4[0]);
        }
        reveal_strlit("download capability");
        reveal_strlit("writes files to disk");
        reveal_strlit("executes payload");
        reveal_strlit("embedded high-entropy payload");
        reveal_strlit("minimal imports (");
        assert(p0.len() == 1 ==> p0[0][0] == 'd' && p0[0][1] == 'o');
        assert(p1.len() == 1 ==> p1[0][0] == 'w' && p1[0][1] == 'r');
        assert(p2.len() == 1 ==> p2[0][0] == 'e' && p2[0][1] == 'x');
        assert(p3.len() == 1 ==> p3[0][0] == 'e' && p3[0][1] == 'm');
        assert(p4.len() == 1 ==> p4[0][0] == 'm' && p4[0][1] == 'i');
        mention_is_part(p, p0, p1, p2, p3, p4, "download capability"@);
        mention_is_part(p, p0, p1, p2, p3, p4, "writes files to disk"@);
        mention_is_part(p, p0, p1, p2, p3, p4, "executes payload"@);
        mention_is_part(p, p0, p1, p2, p3, p4, "embedded high-entropy payload"@);
        let text = "minimal imports ("@ + decimal(s.import_count as nat) + ")"@;
        mention_is_part(p, p0, p1, p2, p3, p4, text);
    }
}

/// Keylogger: the pattern fires exactly when at least three of these hold: an imported
/// keyboard API, an API that writes a log, a persistence API or path, an API that sends
/// data. It then names what it is, mentions each condition that holds, in this order and
/// nothing else, and quotes the first import or string that meets a condition.
pub proof fn keylogger_is_what_it_says(s: Signals, r: Option<BehaviorPattern>)
    requires
        opt_pattern_view(r) == s@.keylogger(),
    ensures
        ({
            let c0 = imports_one_of(s.functions@, str_views(KEYBOARD_APIS@));
            let c1 = imports_one_of(s.functions@, str_views(LOG_FILE_APIS@));
            let c2 = imports_one_of(s.functions@, str_views(PERSISTENCE_APIS@))
                || some_of_category(s.categories@, StringCategory::PersistencePath);
            let c3 = imports_one_of(s.functions@, str_views(EXFILTRATION_APIS@));
            let n1 = (tally(c0)) as int;
            let n2 = (tally(c0) + tally(c1)) as int;
            let n3 = (tally(c0) + tally(c1) + tally(c2)) as int;
            let count = tally(c0) + tally(c1) + tally(c2) + tally(c3);
            &&& r is Some <==> count >= 3
            &&& r matches Some(p) ==> {
                &&& p.name@ == "Keylogger"@
                &&& p.category@ == "collection"@
                &&& p.description@ == "Captures keystrokes, logs them, and persists"@
                &&& p.severity == Severity::High
                &&& lists(p.mitre_ids@, seq!["T1056.001"@])
                &&& p.confidence == if count == 3 {
                    75int
                } else {
                    100
                }
                &&& p.indicators@.len() == count
                &&& c0 ==> quotes_import(
                    p.indicators@[0]@,
                    "keyboard capture: "@,
                    s.functions@,
                    str_views(KEYBOARD_APIS@),
                )
                &&& c1 ==> p.indicators@[n1]@ == "logs to a file"@
                &&& c2 ==> p.indicators@[n2]@ == "persistence mechanism"@
                &&& c3 ==> p.indicators@[n3]@ == "network exfiltration"@
                &&& mentions(p, "logs to a file"@) <==> c1
                &&& mentions(p, "persistence mechanism"@) <==> c2
                &&& mentions(p, "network exfiltration"@) <==> c3
            }
        }),
{
    lists_are_complete();
    confidence_by_indicators(s@);
    import_found(s.functions@, str_views(KEYBOARD_APIS@));
    import_found(s.functions@, str_views(LOG_FILE_APIS@));
    import_found(s.functions@, str_views(PERSISTENCE_APIS@));
    import_found(s.functions@, str_views(EXFILTRATION_APIS@));
    let cat = StringCategory::PersistencePath;
    category_query_is_existence(s, cat, s@.has(cat));
    let c0 = imports_one_of(s.functions@, str_views(KEYBOARD_APIS@));
    let c1 = imports_one_of(s.functions@, str_views(LOG_FILE_APIS@));
    let c2 = imports_one_of(s.functions@, str_views(PERSISTENCE_APIS@))
        || some_of_category(s.categories@, StringCategory::PersistencePath);
    let c3 = imports_one_of(s.functions@, str_views(EXFILTRATION_APIS@));
    let p0 = labelled("keyboard capture: "@, s@.import(KEYBOARD_APIS@));
    let p1 = flagged("logs to a file"@, c1);
    let p2 = flagged("persistence mechanism"@, c2);
    let p3 = flagged("network exfiltration"@, c3);
    assert(p0.len() == tally(c0));
    assert(p1.len() == tally(c1));
    assert(p2.len() == tally(c2));
    assert(p3.len() == tally(c3));
    assert(s@.keylogger_indicators() == p0 + p1 + p2 + p3);
    if r is Some {
        let p = r->0;
        let ind = s@.keylogger_indicators();
        assert(views(p.indicators@) == ind);
        assert forall|k: int| 0 <= k < ind.len() implies #[trigger] p.indicators@[k]@
            == ind[k] by {
            assert(views(p.indicators@)[k] == ind[k]);
        }
        assert(views(p.mitre_ids@) == seq!["T1056.001"@]);
        assert forall|k: int| 0 <= k < p.mitre_ids@.len() implies #[trigger] p.mitre_ids@[k]@
            == seq!["T1056.001"@][k] by {
            assert(views(p.mitre_ids@)[k] == seq!["T1056.001"@][k]);
        }
        if c0 {
            assert(ind[0] == p0[0]);
        }
        if c1 {
            assert(ind[(tally(c0)) as int] == p1[0]);
        }
        if c2 {
            assert(ind[(tally(c0) + tally(c1)) as int] == p2[0]);
        }
        if c3 {
            assert(ind[(tally(c0) + tally(c1) + tally(c2)) as int] == p3[0]);
        }
        reveal_strlit("keyboard capture: ");
        reveal_strlit("logs to a file");
        reveal_strlit("persistence mechanism");
        reveal_strlit("network exfiltration");
        assert(p0.len() == 1 ==> p0[0][0] == 'k' && p0[0][1] == 'e');
        assert(p1.len() == 1 ==> p1[0][0] == 'l' && p1[0][1] == 'o');
        assert(p2.len() == 1 ==> p2[0][0] == 'p' && p2[0][1] == 'e');
        assert(p3.len() == 1 ==> p3[0][0] == 'n' && p3[0][1] == 'e');
        let p4: Seq<Seq<char>> = seq![];
        assert(ind =~= p0 + p1 + p2 + p3 + p4);
        mention_is_part(p, p0, p1, p2, p3, p4, "logs to a file"@);
        mention_is_part(p, p0, p1, p2, p3, p4, "persistence mechanism"@);
        mention_is_part(p, p0, p1, p2, p3, p4, "network exfiltration"@);
    }
}

/// Rootkit: the pattern fires exactly when at least three of these hold: an imported
/// process API, a word of kernel module handling, a hiding place, an API that resolves
/// symbols. It then names what it is, mentions each condition that holds, in this order and
/// nothing else, and quotes the first import or string that meets a condition.
pub proof fn rootkit_is_what_it_says(s: Signals, r: Option<BehaviorPattern>)
    requires
        opt_pattern_view(r) == s@.rootkit(),
    ensures
        ({
            let c0 = imports_one_of(s.functions@, str_views(PROCESS_APIS@));
            let c1 = holds_one_of(s.string_values@, str_views(KERNEL_MODULE_STRINGS@));
            let c2 = holds_one_of(s.string_values@, str_views(HIDING_STRINGS@));
            let c3 = imports_one_of(s.functions@, str_views(SYMBOL_RESOLUTION_APIS@));
            let n1 = (tally(c0)) as int;
            let n2 = (tally(c0) + tally(c1)) as int;
            let n3 = (tally(c0) + tally(c1) + tally(c2)) as int;
            let count = tally(c0) + tally(c1) + tally(c2) + tally(c3);
            &&& r is Some <==> count >= 3
            &&& r matches Some(p) ==> {
                &&& p.name@ == "Rootkit"@
                &&& p.category@ == "defense-evasion"@
                &&& p.description@ == "Manipulates the kernel/processes and hides its presence"@
                &&& p.severity == Severity::Critical
                &&& lists(p.mitre_ids@, seq!["T1014"@, "T1055.008"@])
                &&& p.confidence == if count == 3 {
                    75int
                } else {
                    100
                }
                &&& p.indicators@.len() == count
                &&& c0 ==> quotes_import(
                    p.indicators@[0]@,
                    "process manipulation: "@,
                    s.functions@,
                    str_views(PROCESS_APIS@),
                )
                &&& c1 ==> quotes_string(
                    p.indicators@[n1]@,
                    "kernel module string: "@,
                    s.string_values@,
                    str_views(KERNEL_MODULE_STRINGS@),
                )
                &&& c2 ==> quotes_string(
                    p.indicators@[n2]@,
                    "hiding artifact: "@,
                    s.string_values@,
                    str_views(HIDING_STRINGS@),
                )
                &&& c3 ==> p.indicators@[n3]@ == "runtime symbol resolution"@
                &&& mentions(p, "runtime symbol resolution"@) <==> c3
            }
        }),
{
    lists_are_complete();
    confidence_by_indicators(s@);
    import_found(s.functions@, str_views(PROCESS_APIS@));
    string_found(s, KERNEL_MODULE_STRINGS@);
    string_found(s, HIDING_STRINGS@);
    import_found(s.functions@, str_views(SYMBOL_RESOLUTION_APIS@));
    let c0 = imports_one_of(s.functions@, str_views(PROCESS_APIS@));
    let c1 = holds_one_of(s.string_values@, str_views(KERNEL_MODULE_STRINGS@));
    let c2 = holds_one_of(s.string_values@, str_views(HIDING_STRINGS@));
    let c3 = imports_one_of(s.functions@, str_views(SYMBOL_RESOLUTION_APIS@));
    let p0 = labelled("process manipulation: "@, s@.import(PROCESS_APIS@));
    let p1 = labelled("kernel module string: "@, s@.string(KERNEL_MODULE_STRINGS@));
    let p2 = labelled("hiding artifact: "@, s@.string(HIDING_STRINGS@));
    let p3 = flagged("runtime symbol resolution"@, c3);
    assert(p0.len() == tally(c0));
    assert(p1.len() == tally(c1));
    assert(p2.len() == tally(c2));
    assert(p3.len() == tally(c3));
    assert(s@.rootkit_indicators() == p0 + p1 + p2 + p3);
    if r is Some {
        let p = r->0;
        let ind = s@.rootkit_indicators();
        assert(views(p.indicators@) == ind);
        assert forall|k: int| 0 <= k < ind.len() implies #[trigger] p.indicators@[k]@
            == ind[k] by {
            assert(views(p.indicators@)[k] == ind[k]);
        }
        assert(views(p.mitre_ids@) == seq!["T1014"@, "T1055.008"@]);
        assert forall|k: int| 0 <= k < p.mitre_ids@.len() implies #[trigger] p.mitre_ids@[k]@
            == seq!["T1014"@, "T1055.008"@][k] by {
            assert(views(p.mitre_ids@)[k] == seq!["T1014"@, "T1055.008"@][k]);
        }
        if c0 {
            assert(ind[0] == p0[0]);
        }
        if c1 {
            assert(ind[(tally(c0)) as int] == p1[0]);
        }
        if c2 {
            assert(ind[(tally(c0) + tally(c1)) as int] == p2[0]);
        }
        if c3 {
            assert(ind[(tally(c0) + tally(c1) + tally(c2)) as int] == p3[0]);
        }
        reveal_strlit("process manipulation: ");
        reveal_strlit("kernel module string: ");
        reveal_strlit("hiding artifact: ");
        reveal_strlit("runtime symbol resolution");
        assert(p0.len() == 1 ==> p0[0][0] == 'p' && p0[0][1] == 'r');
        assert(p1.len() == 1 ==> p1[0][0] == 'k' && p1[0][1] == 'e');
        assert(p2.len() == 1 ==> p2[0][0] == 'h' && p2[0][1] == 'i');
        assert(p3.len() == 1 ==> p3[0][0] == 'r' && p3[0][1] == 'u');
        let p4: Seq<Seq<char>> = seq![];
        assert(ind =~= p0 + p1 + p2 + p3 + p4);
        mention_is_part(p, p0, p1, p2, p3, p4, "runtime symbol resolution"@);
    }
}

/// The report of all detectors together: those that fire, in a fixed order, each with
/// what it says alone.
pub proof fn report_is_what_fires(s: Signals, r: Seq<BehaviorPattern>)
    requires
        pattern_views(r) == s@.patterns(),
    ensures
        ({
            let a = tally(s@.ransomware() is Some);
            let b = a + tally(s@.reverse_shell() is Some);
            let c = b + tally(s@.dropper() is Some);
            let d = c + tally(s@.keylogger() is Some);
            &&& r.len() == d + tally(s@.rootkit() is Some)
            &&& s@.ransomware() is Some ==> Some(r[0]@) == s@.ransomware()
            &&& s@.reverse_shell() is Some ==> Some(r[a as int]@) == s@.reverse_shell()
            &&& s@.dropper() is Some ==> Some(r[b as int]@) == s@.dropper()
            &&& s@.keylogger() is Some ==> Some(r[c as int]@) == s@.keylogger()
            &&& s@.rootkit() is Some ==> Some(r[d as int]@) == s@.rootkit()
        }),
{
    let v = pattern_views(r);
    assert forall|k: int| 0 <= k < r.len() implies #[trigger] r[k]@ == v[k] by {}
    assert(v.len() == r.len());
    let pa = fired(s@.ransomware());
    let pb = pa + fired(s@.reverse_shell());
    let pc = pb + fired(s@.dropper());
    let pd = pc + fired(s@.keylogger());
    assert(v == pd + fired(s@.rootkit()));
    let a = tally(s@.ransomware() is Some);
    let b = a + tally(s@.reverse_shell() is Some);
    let c = b + tally(s@.dropper() is Some);
    let d = c + tally(s@.keylogger() is Some);
    assert(pa.len() == a && pb.len() == b && pc.len() == c && pd.len() == d);
    if s@.ransomware() is Some {
        assert(v[0] == pa[0]);
    }
    if s@.reverse_shell() is Some {
        assert(v[a as int] == pb[a as int]);
    }
    if s@.dropper() is Some {
        assert(v[b as int] == pc[b as int]);
    }
    if s@.keylogger() is Some {
        assert(v[c as int] == pd[c as int]);
    }
}

// ---------------------------------------------------------------------------
// Contexts
// ---------------------------------------------------------------------------

/// Entropy is high exactly when packing was detected or the overall entropy is a number
/// from 7.0 up to infinity, by the representations of the two.
pub proof fn high_entropy_is_packed_or_from_seven(e: EntropyResult)
    ensures
        is_high_entropy(e) <==> e.packing_detected || 0x401c_0000_0000_0000
            <= e.overall_entropy_bits <= 0x7ff0_0000_0000_0000,
{
    threshold_by_representation(e.overall_entropy_bits);
}

/// The signals of a context, part by part: the functions are the imports as they are
/// written, the values are the strings in lower case, the categories are theirs, entropy
/// is as above, and the count is that of the imports. A missing result gives nothing.
pub proof fn signals_are_those_of_the_context(ctx: AnalysisContext, s: Signals)
    requires
        s@ == context_signals(ctx),
    ensures
        ctx.import_result is None ==> s.functions@.len() == 0 && s.import_count == 0,
        ctx.import_result matches Some(r) ==> {
            &&& s.functions@.len() == r.imports@.len()
            &&& s.import_count == r.imports@.len()
            &&& forall|i: int|
                0 <= i < r.imports@.len() ==> #[trigger] s.functions@[i]@
                    == r.imports@[i].function@
        },
        ctx.string_result is None ==> s.string_values@.len() == 0 && s.categories@.len() == 0,
        ctx.string_result matches Some(r) ==> {
            &&& s.string_values@.len() == r.strings@.len()
            &&& s.categories@.len() == r.strings@.len()
            &&& forall|i: int|
                0 <= i < r.strings@.len() ==> #[trigger] s.string_values@[i]@ == lowercase(
                    r.strings@[i].value@,
                )
            &&& forall|i: int|
                0 <= i < r.strings@.len() ==> #[trigger] s.categories@[i]
                    == r.strings@[i].category
        },
        s.high_entropy <==> (ctx.entropy_result matches Some(e) && (e.packing_detected
            || 0x401c_0000_0000_0000 <= e.overall_entropy_bits <= 0x7ff0_0000_0000_0000)),
{
    let v = context_signals(ctx);
    assert(views(s.functions@) == v.functions);
    assert(views(s.string_values@) == v.string_values);
    assert(s.categories@ == v.categories);
    assert(s.functions@.len() == v.functions.len());
    assert(s.string_values@.len() == v.string_values.len());
    assert forall|i: int| 0 <= i < v.functions.len() implies #[trigger] s.functions@[i]@
        == v.functions[i] by {
        assert(views(s.functions@)[i] == v.functions[i]);
    }
    assert forall|i: int| 0 <= i < v.string_values.len() implies #[trigger] s.string_values@[i]@
        == v.string_values[i] by {
        assert(views(s.string_values@)[i] == v.string_values[i]);
    }
    if ctx.entropy_result is Some {
        high_entropy_is_packed_or_from_seven(ctx.entropy_result->0);
    }
}

/// A run of the pass leaves what the detectors report of the signals of the context, and
/// everything else in the context as it was.
pub proof fn run_reports_and_keeps(before: AnalysisContext, after: AnalysisContext, s: Signals)
    requires
        BehaviorPass.outcome(before, after),
        s@ == context_signals(before),
    ensures
        after.behavior_result matches Some(r) && pattern_views(r.patterns@) == s@.patterns(),
        after.import_result == before.import_result,
        after.string_result == before.string_result,
        after.entropy_result == before.entropy_result,
        after.sandbox_result == before.sandbox_result,
        BehaviorPass.pass_name() == "behavior"@,
        BehaviorPass.pass_dependencies() == seq!["imports"@, "strings"@, "entropy"@],
{
}

} // verus!
