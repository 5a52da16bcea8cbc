//! What holds of the passes as a whole.

use vstd::prelude::*;
use crate::context::{AnalysisContext, found_strings, import_names};
use crate::matching::{first_import, matches_any};
use crate::pass::AnalysisPass;
use crate::passes::behavior::{BehaviorPass, MIN_INDICATORS, PatternHead, PatternView, SignalsView};
use crate::passes::behavior::{confidence, contains_any, context_signals, fired};
use crate::passes::behavior::{dropper_head, flagged, keylogger_head, labelled, pattern_of};
use crate::passes::behavior::pattern_views;
use crate::passes::behavior::{ransomware_head, reverse_shell_head, rootkit_head};
use crate::passes::behavior::{COMMAND_EXECUTION_APIS, DOWNLOAD_APIS, DOWNLOAD_STRINGS};
use crate::passes::behavior::{ENCRYPTION_APIS, EXFILTRATION_APIS, FD_REDIRECTION_APIS};
use crate::passes::behavior::{FILE_ENUMERATION_APIS, FILE_WRITE_APIS, HIDING_STRINGS};
use crate::passes::behavior::{KERNEL_MODULE_STRINGS, KEYBOARD_APIS, LOG_FILE_APIS};
use crate::passes::behavior::{PAYLOAD_EXECUTION_APIS, PERSISTENCE_APIS, PROCESS_APIS};
use crate::passes::behavior::{RANSOM_NOTE_STRINGS, SHELL_STRINGS, SOCKET_APIS};
use crate::passes::behavior::SYMBOL_RESOLUTION_APIS;
use crate::passes::sandbox::{SandboxEvasionPass, SandboxEvasionResult};
use crate::passes::sandbox::{TechniqueDef, TechniqueView, categories_of, context_techniques};
use crate::passes::sandbox::{environment_technique, evasion_techniques, import_technique};
use crate::passes::sandbox::{import_techniques, technique_table, technique_views, truncated};
use crate::text::decimal;
use crate::text::{find_first_is_first, find_first_keeps_on_extension};
use crate::text::{lex_less, lex_less_irreflexive, lowercase, str_views, views};
use crate::text::sorted_unique_is_determined;
use crate::types::{Severity, StringCategory};

verus! {

// ---------------------------------------------------------------------------
// Evidence
// ---------------------------------------------------------------------------

/// The import quoted as evidence is one of the imports, is one of the APIs, and has no
/// such import before it; there is none exactly when no import is one of the APIs.
pub proof fn evidence_is_first_matching_import(functions: Seq<Seq<char>>, apis: Seq<Seq<char>>)
    ensures
        first_import(functions, apis) is None <==> (forall|i: int|
            0 <= i < functions.len() ==> !matches_any(#[trigger] functions[i], apis)),
        first_import(functions, apis) matches Some(x) ==> exists|i: int|
            {
                &&& 0 <= i < functions.len()
                &&& #[trigger] functions[i] == x
                &&& matches_any(x, apis)
                &&& forall|k: int| 0 <= k < i ==> !matches_any(#[trigger] functions[k], apis)
            },
{
    let p = |f: Seq<char>| matches_any(f, apis);
    find_first_is_first(functions, p);
    if first_import(functions, apis) is None {
        assert forall|i: int| 0 <= i < functions.len() implies !matches_any(
            #[trigger] functions[i],
            apis,
        ) by {
            assert(!p(functions[i]));
        }
    } else {
        let x = first_import(functions, apis)->0;
        let i = choose|i: int|
            {
                &&& 0 <= i < functions.len()
                &&& #[trigger] functions[i] == x
                &&& p(x)
                &&& forall|k: int| 0 <= k < i ==> !p(#[trigger] functions[k])
            };
        assert(functions[i] == x);
        assert forall|k: int| 0 <= k < i implies !matches_any(#[trigger] functions[k], apis) by {
            assert(!p(functions[k]));
        }
    }
}

/// The string quoted as evidence is one of the string values, contains one of the
/// needles, and has no such value before it; there is none exactly when no value
/// contains any of them.
pub proof fn evidence_is_first_matching_string(s: SignalsView, needles: Seq<&str>)
    ensures
        s.string(needles) is None <==> (forall|i: int|
            0 <= i < s.string_values.len() ==> !contains_any(
                #[trigger] s.string_values[i],
                str_views(needles),
            )),
        s.string(needles) matches Some(x) ==> exists|i: int|
            {
                &&& 0 <= i < s.string_values.len()
                &&& #[trigger] s.string_values[i] == x
                &&& contains_any(x, str_views(needles))
                &&& forall|k: int|
                    0 <= k < i ==> !contains_any(
                        #[trigger] s.string_values[k],
                        str_views(needles),
                    )
            },
{
    let values = s.string_values;
    let p = |v: Seq<char>| contains_any(v, str_views(needles));
    find_first_is_first(values, p);
    if s.string(needles) is None {
        assert forall|i: int| 0 <= i < values.len() implies !contains_any(
            #[trigger] values[i],
            str_views(needles),
        ) by {
            assert(!p(values[i]));
        }
    } else {
        let x = s.string(needles)->0;
        let i = choose|i: int|
            {
                &&& 0 <= i < values.len()
                &&& #[trigger] values[i] == x
                &&& p(x)
                &&& forall|k: int| 0 <= k < i ==> !p(#[trigger] values[k])
            };
        assert(values[i] == x);
        assert forall|k: int| 0 <= k < i implies !contains_any(
            #[trigger] values[k],
            str_views(needles),
        ) by {
            assert(!p(values[k]));
        }
    }
}

// ---------------------------------------------------------------------------
// Subsequences
// ---------------------------------------------------------------------------

/// The positions in `b` at which the elements of `a` stand, in order.
pub open spec fn embeds<T>(a: Seq<T>, b: Seq<T>, at: Seq<int>) -> bool {
    &&& at.len() == a.len()
    &&& forall|i: int| 0 <= i < a.len() ==> 0 <= #[trigger] at[i] < b.len() && b[at[i]] == a[i]
    &&& forall|i: int, j: int| 0 <= i < j < a.len() ==> #[trigger] at[i] < #[trigger] at[j]
}

/// `a` is `b` with some elements left out.
pub open spec fn is_subsequence<T>(a: Seq<T>, b: Seq<T>) -> bool {
    exists|at: Seq<int>| embeds(a, b, at)
}

proof fn subsequence_by<T>(a: Seq<T>, b: Seq<T>, at: Seq<int>)
    requires
        embeds(a, b, at),
    ensures
        is_subsequence(a, b),
{
}

/// Subsequences of two parts make a subsequence of the whole.
proof fn parts_append<T>(a: Seq<T>, b: Seq<T>, c: Seq<T>, d: Seq<T>)
    requires
        is_subsequence(a, b),
        is_subsequence(c, d),
    ensures
        is_subsequence(a + c, b + d),
{
    let p = choose|at: Seq<int>| embeds(a, b, at);
    let q = choose|at: Seq<int>| embeds(c, d, at);
    let shifted = q.map_values(|i: int| i + b.len());
    let at = p + shifted;
    assert forall|i: int| 0 <= i < (a + c).len() implies 0 <= #[trigger] at[i] < (b + d).len() && (
    b + d)[at[i]] == (a + c)[i] by {
        if i < a.len() {
            assert(at[i] == p[i]);
        } else {
            assert(at[i] == q[i - a.len()] + b.len());
        }
    }
    assert forall|i: int, j: int| 0 <= i < j < (a + c).len() implies #[trigger] at[i]
        < #[trigger] at[j] by {
        if j < a.len() {
            assert(at[i] == p[i] && at[j] == p[j]);
        } else if i < a.len() {
            assert(at[i] == p[i] && at[j] == q[j - a.len()] + b.len());
        } else {
            assert(at[i] == q[i - a.len()] + b.len() && at[j] == q[j - a.len()] + b.len());
        }
    }
    subsequence_by(a + c, b + d, at);
}

/// A subsequence is no longer than the whole.
pub proof fn subsequence_is_no_longer<T>(a: Seq<T>, b: Seq<T>)
    requires
        is_subsequence(a, b),
    ensures
        a.len() <= b.len(),
{
    let at = choose|at: Seq<int>| embeds(a, b, at);
    if a.len() > 0 {
        position_at_least(a, b, at, a.len() - 1);
    }
}

proof fn position_at_least<T>(a: Seq<T>, b: Seq<T>, at: Seq<int>, i: int)
    requires
        embeds(a, b, at),
        0 <= i < a.len(),
    ensures
        at[i] >= i,
    decreases i,
{
    if i > 0 {
        position_at_least(a, b, at, i - 1);
        assert(at[i - 1] < at[i]);
    }
}

// ---------------------------------------------------------------------------
// Behavioural patterns
// ---------------------------------------------------------------------------

/// The confidence of a share below one is within half a hundredth of it.
pub proof fn confidence_is_within_half_a_hundredth(matched: nat, total: nat)
    requires
        matched < total,
    ensures
        200 * matched - total <= 2 * total * confidence(matched, total) <= 200 * matched + total,
{
    let (m, t) = (matched as int, total as int);
    let c = confidence(matched, total) as int;
    if 200 * m == 29 * t || 200 * m == 57 * t || 200 * m == 113 * t || 200 * m == 115 * t {
        assert(200 * m == (2 * c + 1) * t) by (nonlinear_arith)
            requires
                200 * m == 29 * t && c == 14 || 200 * m == 57 * t && c == 28 || 200 * m == 113 * t
                    && c == 56 || 200 * m == 115 * t && c == 57,
        ;
        assert(200 * m - t <= 2 * t * c <= 200 * m + t) by (nonlinear_arith)
            requires
                200 * m == (2 * c + 1) * t,
                t > 0,
        ;
    } else {
        assert(200 * m - t <= 2 * t * c <= 200 * m + t) by (nonlinear_arith)
            requires
                0 <= m < t,
                c == (200 * m + t) / (2 * t),
        ;
    }
}

/// Where at least as many indicators matched as there are candidates, none included, the
/// confidence is full.
pub proof fn all_matched_is_full_confidence(matched: nat, total: nat)
    requires
        matched >= total,
    ensures
        confidence(matched, total) == 100,
{
}

/// Midway between two hundredths the confidence is the upper one, except at 14.5, 28.5,
/// 56.5 and 57.5 hundredths.
pub proof fn confidence_at_halves(matched: nat, total: nat, below: nat)
    requires
        matched < total,
        200 * matched == (2 * below + 1) * total,
    ensures
        confidence(matched, total) == if below == 14 || below == 28 || below == 56 || below == 57 {
            below
        } else {
            below + 1
        },
{
    let (m, t, k) = (matched as int, total as int, below as int);
    let c = confidence(matched, total) as int;
    assert((200 * m == 29 * t <==> k == 14) && (200 * m == 57 * t <==> k == 28) && (200 * m == 113
        * t <==> k == 56) && (200 * m == 115 * t <==> k == 57)) by (nonlinear_arith)
        requires
            0 <= m < t,
            200 * m == (2 * k + 1) * t,
    ;
    if k != 14 && k != 28 && k != 56 && k != 57 {
        assert(c == k + 1) by (nonlinear_arith)
            requires
                0 <= m < t,
                200 * m == (2 * k + 1) * t,
                c == (200 * m + t) / (2 * t),
        ;
    }
}

/// A confidence is between zero and one, and grows with the number of indicators.
pub proof fn confidence_grows_within_bounds(matched: nat, more: nat, total: nat)
    requires
        0 < matched <= more,
    ensures
        confidence(matched, total) <= confidence(more, total) <= 100,
        total < 200 * matched ==> confidence(matched, total) > 0,
{
    let (m, n, t) = (matched as int, more as int, total as int);
    let c = confidence(matched, total) as int;
    let d = confidence(more, total) as int;
    if m < t {
        confidence_is_within_half_a_hundredth(matched, total);
        assert(c <= 100) by (nonlinear_arith)
            requires
                0 < m < t,
                2 * t * c <= 200 * m + t,
        ;
        if t < 200 * m {
            assert(c > 0) by (nonlinear_arith)
                requires
                    0 < t < 200 * m,
                    200 * m - t <= 2 * t * c,
            ;
        }
    }
    if n < t {
        confidence_is_within_half_a_hundredth(more, total);
        assert(d <= 100) by (nonlinear_arith)
            requires
                0 < n < t,
                2 * t * d <= 200 * n + t,
        ;
        if m < n {
            assert(c <= d) by (nonlinear_arith)
                requires
                    0 < m < n < t,
                    2 * t * c <= 200 * m + t,
                    200 * n - t <= 2 * t * d,
            ;
        }
    }
}

/// Full confidence means that every candidate indicator matched. With 200 candidates or
/// more, a share just below one is rounded up to it as well.
pub proof fn full_confidence_means_all_matched(matched: nat, total: nat)
    requires
        total < 200,
    ensures
        confidence(matched, total) == 100 <==> matched >= total,
{
    if matched < total {
        confidence_is_within_half_a_hundredth(matched, total);
        let (m, t, c) = (matched as int, total as int, confidence(matched, total) as int);
        assert(c < 100) by (nonlinear_arith)
            requires
                0 <= m < t < 200,
                2 * t * c <= 200 * m + t,
        ;
    }
}

/// The confidences that patterns can have: three or four of four indicators, and three,
/// four or five of five.
pub proof fn pattern_confidences()
    ensures
        confidence(3, 4) == 75,
        confidence(4, 4) == 100,
        confidence(3, 5) == 60,
        confidence(4, 5) == 80,
        confidence(5, 5) == 100,
{
    confidence_is_within_half_a_hundredth(3, 4);
    confidence_is_within_half_a_hundredth(3, 5);
    confidence_is_within_half_a_hundredth(4, 5);
}

/// The confidence of each pattern that fires, by the number of its indicators.
pub proof fn confidence_by_indicators(s: SignalsView)
    ensures
        s.ransomware() matches Some(p) ==> p.confidence == if p.indicators.len() == 3 {
            75nat
        } else {
            100
        },
        s.reverse_shell() matches Some(p) ==> p.confidence == if p.indicators.len() == 3 {
            75nat
        } else {
            100
        },
        s.dropper() matches Some(p) ==> p.confidence == if p.indicators.len() == 3 {
            60nat
        } else if p.indicators.len() == 4 {
            80
        } else {
            100
        },
        s.keylogger() matches Some(p) ==> p.confidence == if p.indicators.len() == 3 {
            75nat
        } else {
            100
        },
        s.rootkit() matches Some(p) ==> p.confidence == if p.indicators.len() == 3 {
            75nat
        } else {
            100
        },
{
    pattern_confidences();
    indicators_within_candidates(s);
}

/// No pattern has more indicators than it has candidates.
pub proof fn indicators_within_candidates(s: SignalsView)
    ensures
        s.ransomware_indicators().len() <= 4,
        s.reverse_shell_indicators().len() <= 4,
        s.dropper_indicators().len() <= 5,
        s.keylogger_indicators().len() <= 4,
        s.rootkit_indicators().len() <= 4,
{
}

/// Each pattern fires exactly when at least [`MIN_INDICATORS`] of its indicators matched,
/// and carries the indicators that did.
pub proof fn pattern_fires_iff_enough_indicators(s: SignalsView)
    ensures
        s.ransomware() is Some <==> s.ransomware_indicators().len() >= MIN_INDICATORS,
        s.reverse_shell() is Some <==> s.reverse_shell_indicators().len() >= MIN_INDICATORS,
        s.dropper() is Some <==> s.dropper_indicators().len() >= MIN_INDICATORS,
        s.keylogger() is Some <==> s.keylogger_indicators().len() >= MIN_INDICATORS,
        s.rootkit() is Some <==> s.rootkit_indicators().len() >= MIN_INDICATORS,
        s.ransomware() matches Some(p) ==> p.indicators == s.ransomware_indicators(),
        s.reverse_shell() matches Some(p) ==> p.indicators == s.reverse_shell_indicators(),
        s.dropper() matches Some(p) ==> p.indicators == s.dropper_indicators(),
        s.keylogger() matches Some(p) ==> p.indicators == s.keylogger_indicators(),
        s.rootkit() matches Some(p) ==> p.indicators == s.rootkit_indicators(),
{
}

/// What every report promises of a pattern.
pub open spec fn supported(p: PatternView) -> bool {
    &&& p.indicators.len() >= MIN_INDICATORS
    &&& 0 < p.confidence <= 100
    &&& p.severity == Severity::High || p.severity == Severity::Critical
    &&& p.mitre_ids.len() >= 1
}

proof fn fired_pattern_is_supported(head: PatternHead, indicators: Seq<Seq<char>>, total: nat)
    requires
        indicators.len() <= total <= 5,
        head.severity == Severity::High || head.severity == Severity::Critical,
        head.mitre_ids.len() >= 1,
    ensures
        pattern_of(head, indicators, total) matches Some(p) ==> supported(p),
{
    if indicators.len() >= MIN_INDICATORS {
        confidence_grows_within_bounds(indicators.len(), indicators.len(), total);
    }
}

proof fn all_fired_supported(a: Seq<PatternView>, p: Option<PatternView>)
    requires
        forall|i: int| 0 <= i < a.len() ==> supported(#[trigger] a[i]),
        p matches Some(x) ==> supported(x),
    ensures
        forall|i: int| 0 <= i < (a + fired(p)).len() ==> supported(#[trigger] (a + fired(p))[i]),
{
}

/// Every pattern that is reported has at least [`MIN_INDICATORS`] indicators, a confidence
/// above zero and at most one, a severity of high or critical, and a MITRE identifier.
pub proof fn reported_patterns_are_supported(s: SignalsView)
    ensures
        forall|i: int| 0 <= i < s.patterns().len() ==> supported(#[trigger] s.patterns()[i]),
{
    indicators_within_candidates(s);
    fired_pattern_is_supported(ransomware_head(), s.ransomware_indicators(), 4);
    fired_pattern_is_supported(reverse_shell_head(), s.reverse_shell_indicators(), 4);
    fired_pattern_is_supported(dropper_head(), s.dropper_indicators(), 5);
    fired_pattern_is_supported(keylogger_head(), s.keylogger_indicators(), 4);
    fired_pattern_is_supported(rootkit_head(), s.rootkit_indicators(), 4);
    let a = fired(s.ransomware());
    let b = a + fired(s.reverse_shell());
    let c = b + fired(s.dropper());
    let d = c + fired(s.keylogger());
    all_fired_supported(a, s.reverse_shell());
    all_fired_supported(b, s.dropper());
    all_fired_supported(c, s.keylogger());
    all_fired_supported(d, s.rootkit());
}

/// At most one pattern of each name is reported.
pub proof fn pattern_names_are_distinct(s: SignalsView)
    ensures
        s.patterns().len() <= 5,
        forall|i: int, j: int|
            0 <= i < j < s.patterns().len() ==> (#[trigger] s.patterns()[i]).name != (
            #[trigger] s.patterns()[j]).name,
{
    reveal_strlit("Ransomware");
    reveal_strlit("Reverse Shell");
    reveal_strlit("Dropper");
    reveal_strlit("Keylogger");
    reveal_strlit("Rootkit");
    assert("Ransomware"@.len() == 10);
    assert("Reverse Shell"@.len() == 13);
    assert("Dropper"@[0] == 'D' && "Dropper"@.len() == 7);
    assert("Keylogger"@.len() == 9);
    assert("Rootkit"@[0] == 'R' && "Rootkit"@.len() == 7);
    let a = fired(s.ransomware());
    let b = a + fired(s.reverse_shell());
    let c = b + fired(s.dropper());
    let d = c + fired(s.keylogger());
    assert(s.patterns() == d + fired(s.rootkit()));
}

/// Nothing is reported exactly when every pattern lacks indicators.
pub proof fn nothing_reported_iff_no_pattern_fires(s: SignalsView)
    ensures
        s.patterns().len() == 0 <==> {
            &&& s.ransomware() is None
            &&& s.reverse_shell() is None
            &&& s.dropper() is None
            &&& s.keylogger() is None
            &&& s.rootkit() is None
        },
{
}

/// `b` is `a` with further findings behind those of `a`.
pub open spec fn extends(a: SignalsView, b: SignalsView) -> bool {
    &&& a.functions.is_prefix_of(b.functions)
    &&& a.string_values.is_prefix_of(b.string_values)
    &&& a.categories.is_prefix_of(b.categories)
    &&& a.high_entropy ==> b.high_entropy
}

proof fn import_found_stays(a: SignalsView, b: SignalsView, apis: Seq<&str>)
    requires
        extends(a, b),
        a.import(apis) is Some,
    ensures
        b.import(apis) == a.import(apis),
{
    let p = |f: Seq<char>| matches_any(f, str_views(apis));
    let more = b.functions.skip(a.functions.len() as int);
    assert(b.functions =~= a.functions + more);
    find_first_keeps_on_extension(a.functions, more, p);
}

proof fn string_found_stays(a: SignalsView, b: SignalsView, needles: Seq<&str>)
    requires
        extends(a, b),
        a.string(needles) is Some,
    ensures
        b.string(needles) == a.string(needles),
{
    let p = |v: Seq<char>| contains_any(v, str_views(needles));
    let more = b.string_values.skip(a.string_values.len() as int);
    assert(b.string_values =~= a.string_values + more);
    find_first_keeps_on_extension(a.string_values, more, p);
}

proof fn category_found_stays(a: SignalsView, b: SignalsView, cat: StringCategory)
    requires
        extends(a, b),
        a.has(cat),
    ensures
        b.has(cat),
{
    let k = choose|k: int| 0 <= k < a.categories.len() && a.categories[k] == cat;
    assert(b.categories[k] == cat);
}

/// The indicators of a part that `b` keeps from `a`: none, or the same.
proof fn small_part_kept(a: Seq<Seq<char>>, b: Seq<Seq<char>>)
    requires
        a.len() == 0 || a == b,
    ensures
        is_subsequence(a, b),
{
    if a.len() == 0 {
        subsequence_by(a, b, seq![]);
    } else {
        subsequence_by(a, b, Seq::new(a.len(), |i: int| i));
    }
}

/// What further findings leave of a pattern: it fires with the same text, its indicators
/// are among the later ones in the same order, and its confidence is no smaller.
pub open spec fn kept(before: Option<PatternView>, after: Option<PatternView>) -> bool {
    before matches Some(p) ==> {
        &&& after matches Some(q)
        &&& is_subsequence(p.indicators, q.indicators)
        &&& p.confidence <= q.confidence
        &&& same_text(p, q)
    }
}

/// Two patterns differ in indicators and confidence at most.
pub open spec fn same_text(p: PatternView, q: PatternView) -> bool {
    &&& p.name == q.name
    &&& p.category == q.category
    &&& p.description == q.description
    &&& p.severity == q.severity
    &&& p.mitre_ids == q.mitre_ids
}

proof fn pattern_with_more_indicators(
    head: PatternHead,
    few: Seq<Seq<char>>,
    many: Seq<Seq<char>>,
    total: nat,
)
    requires
        few.len() <= many.len(),
    ensures
        pattern_of(head, few, total) matches Some(p) ==> {
            &&& pattern_of(head, many, total) matches Some(q)
            &&& p.confidence <= q.confidence
            &&& same_text(p, q)
        },
{
    if few.len() >= MIN_INDICATORS {
        confidence_grows_within_bounds(few.len(), many.len(), total);
    }
}

proof fn ransomware_stays(a: SignalsView, b: SignalsView)
    requires
        extends(a, b),
    ensures
        is_subsequence(a.ransomware_indicators(), b.ransomware_indicators()),
        kept(a.ransomware(), b.ransomware()),
{
    if a.import(ENCRYPTION_APIS@) is Some {
        import_found_stays(a, b, ENCRYPTION_APIS@);
    }
    if a.import(FILE_ENUMERATION_APIS@) is Some {
        import_found_stays(a, b, FILE_ENUMERATION_APIS@);
    }
    if a.string(RANSOM_NOTE_STRINGS@) is Some {
        string_found_stays(a, b, RANSOM_NOTE_STRINGS@);
    }
    let a0 = labelled("encryption API: "@, a.import(ENCRYPTION_APIS@));
    let b0 = labelled("encryption API: "@, b.import(ENCRYPTION_APIS@));
    let a1 = labelled("file enumeration: "@, a.import(FILE_ENUMERATION_APIS@));
    let b1 = labelled("file enumeration: "@, b.import(FILE_ENUMERATION_APIS@));
    let a2 = labelled("ransom note string: "@, a.string(RANSOM_NOTE_STRINGS@));
    let b2 = labelled("ransom note string: "@, b.string(RANSOM_NOTE_STRINGS@));
    let a3 = flagged("high-entropy / packed payload"@, a.high_entropy);
    let b3 = flagged("high-entropy / packed payload"@, b.high_entropy);
    small_part_kept(a0, b0);
    small_part_kept(a1, b1);
    small_part_kept(a2, b2);
    small_part_kept(a3, b3);
    parts_append(a0, b0, a1, b1);
    parts_append(a0 + a1, b0 + b1, a2, b2);
    parts_append(a0 + a1 + a2, b0 + b1 + b2, a3, b3);
    subsequence_is_no_longer(a.ransomware_indicators(), b.ransomware_indicators());
    pattern_with_more_indicators(
        ransomware_head(),
        a.ransomware_indicators(),
        b.ransomware_indicators(),
        4,
    );
}

proof fn reverse_shell_stays(a: SignalsView, b: SignalsView)
    requires
        extends(a, b),
    ensures
        is_subsequence(a.reverse_shell_indicators(), b.reverse_shell_indicators()),
        kept(a.reverse_shell(), b.reverse_shell()),
{
    if a.import(SOCKET_APIS@) is Some {
        import_found_stays(a, b, SOCKET_APIS@);
    }
    if a.import(COMMAND_EXECUTION_APIS@) is Some {
        import_found_stays(a, b, COMMAND_EXECUTION_APIS@);
    }
    if a.import(FD_REDIRECTION_APIS@) is Some {
        import_found_stays(a, b, FD_REDIRECTION_APIS@);
    }
    if a.string(SHELL_STRINGS@) is Some {
        string_found_stays(a, b, SHELL_STRINGS@);
    }
    if a.has(StringCategory::ShellCommand) {
        category_found_stays(a, b, StringCategory::ShellCommand);
    }
    let a0 = labelled("socket API: "@, a.import(SOCKET_APIS@));
    let b0 = labelled("socket API: "@, b.import(SOCKET_APIS@));
    let a1 = labelled("command execution: "@, a.import(COMMAND_EXECUTION_APIS@));
    let b1 = labelled("command execution: "@, b.import(COMMAND_EXECUTION_APIS@));
    let a2 = flagged(
        "shell command string"@,
        a.has(StringCategory::ShellCommand) || a.string(SHELL_STRINGS@) is Some,
    );
    let b2 = flagged(
        "shell command string"@,
        b.has(StringCategory::ShellCommand) || b.string(SHELL_STRINGS@) is Some,
    );
    let a3 = labelled("fd redirection: "@, a.import(FD_REDIRECTION_APIS@));
    let b3 = labelled("fd redirection: "@, b.import(FD_REDIRECTION_APIS@));
    small_part_kept(a0, b0);
    small_part_kept(a1, b1);
    small_part_kept(a2, b2);
    small_part_kept(a3, b3);
    parts_append(a0, b0, a1, b1);
    parts_append(a0 + a1, b0 + b1, a2, b2);
    parts_append(a0 + a1 + a2, b0 + b1 + b2, a3, b3);
    subsequence_is_no_longer(a.reverse_shell_indicators(), b.reverse_shell_indicators());
    pattern_with_more_indicators(
        reverse_shell_head(),
        a.reverse_shell_indicators(),
        b.reverse_shell_indicators(),
        4,
    );
}

proof fn keylogger_stays(a: SignalsView, b: SignalsView)
    requires
        extends(a, b),
    ensures
        is_subsequence(a.keylogger_indicators(), b.keylogger_indicators()),
        kept(a.keylogger(), b.keylogger()),
{
    if a.import(KEYBOARD_APIS@) is Some {
        import_found_stays(a, b, KEYBOARD_APIS@);
    }
    if a.import(LOG_FILE_APIS@) is Some {
        import_found_stays(a, b, LOG_FILE_APIS@);
    }
    if a.import(PERSISTENCE_APIS@) is Some {
        import_found_stays(a, b, PERSISTENCE_APIS@);
    }
    if a.import(EXFILTRATION_APIS@) is Some {
        import_found_stays(a, b, EXFILTRATION_APIS@);
    }
    if a.has(StringCategory::PersistencePath) {
        category_found_stays(a, b, StringCategory::PersistencePath);
    }
    let a0 = labelled("keyboard capture: "@, a.import(KEYBOARD_APIS@));
    let b0 = labelled("keyboard capture: "@, b.import(KEYBOARD_APIS@));
    let a1 = flagged("logs to a file"@, a.import(LOG_FILE_APIS@) is Some);
    let b1 = flagged("logs to a file"@, b.import(LOG_FILE_APIS@) is Some);
    let a2 = flagged(
        "persistence mechanism"@,
        a.import(PERSISTENCE_APIS@) is Some || a.has(StringCategory::PersistencePath),
    );
    let b2 = flagged(
        "persistence mechanism"@,
        b.import(PERSISTENCE_APIS@) is Some || b.has(StringCategory::PersistencePath),
    );
    let a3 = flagged("network exfiltration"@, a.import(EXFILTRATION_APIS@) is Some);
    let b3 = flagged("network exfiltration"@, b.import(EXFILTRATION_APIS@) is Some);
    small_part_kept(a0, b0);
    small_part_kept(a1, b1);
    small_part_kept(a2, b2);
    small_part_kept(a3, b3);
    parts_append(a0, b0, a1, b1);
    parts_append(a0 + a1, b0 + b1, a2, b2);
    parts_append(a0 + a1 + a2, b0 + b1 + b2, a3, b3);
    subsequence_is_no_longer(a.keylogger_indicators(), b.keylogger_indicators());
    pattern_with_more_indicators(
        keylogger_head(),
        a.keylogger_indicators(),
        b.keylogger_indicators(),
        4,
    );
}

proof fn rootkit_stays(a: SignalsView, b: SignalsView)
    requires
        extends(a, b),
    ensures
        is_subsequence(a.rootkit_indicators(), b.rootkit_indicators()),
        kept(a.rootkit(), b.rootkit()),
{
    if a.import(PROCESS_APIS@) is Some {
        import_found_stays(a, b, PROCESS_APIS@);
    }
    if a.import(SYMBOL_RESOLUTION_APIS@) is Some {
        import_found_stays(a, b, SYMBOL_RESOLUTION_APIS@);
    }
    if a.string(KERNEL_MODULE_STRINGS@) is Some {
        string_found_stays(a, b, KERNEL_MODULE_STRINGS@);
    }
    if a.string(HIDING_STRINGS@) is Some {
        string_found_stays(a, b, HIDING_STRINGS@);
    }
    let a0 = labelled("process manipulation: "@, a.import(PROCESS_APIS@));
    let b0 = labelled("process manipulation: "@, b.import(PROCESS_APIS@));
    let a1 = labelled("kernel module string: "@, a.string(KERNEL_MODULE_STRINGS@));
    let b1 = labelled("kernel module string: "@, b.string(KERNEL_MODULE_STRINGS@));
    let a2 = labelled("hiding artifact: "@, a.string(HIDING_STRINGS@));
    let b2 = labelled("hiding artifact: "@, b.string(HIDING_STRINGS@));
    let a3 = flagged("runtime symbol resolution"@, a.import(SYMBOL_RESOLUTION_APIS@) is Some);
    let b3 = flagged("runtime symbol resolution"@, b.import(SYMBOL_RESOLUTION_APIS@) is Some);
    small_part_kept(a0, b0);
    small_part_kept(a1, b1);
    small_part_kept(a2, b2);
    small_part_kept(a3, b3);
    parts_append(a0, b0, a1, b1);
    parts_append(a0 + a1, b0 + b1, a2, b2);
    parts_append(a0 + a1 + a2, b0 + b1 + b2, a3, b3);
    subsequence_is_no_longer(a.rootkit_indicators(), b.rootkit_indicators());
    pattern_with_more_indicators(rootkit_head(), a.rootkit_indicators(), b.rootkit_indicators(), 4);
}

/// The indicators of a dropper, but for the number of its imports.
spec fn dropper_finds(s: SignalsView) -> Seq<Seq<char>> {
    flagged(
        "download capability"@,
        s.import(DOWNLOAD_APIS@) is Some || s.has(StringCategory::Url) || s.string(
            DOWNLOAD_STRINGS@,
        ) is Some,
    ) + flagged("writes files to disk"@, s.import(FILE_WRITE_APIS@) is Some) + flagged(
        "executes payload"@,
        s.import(PAYLOAD_EXECUTION_APIS@) is Some,
    ) + flagged("embedded high-entropy payload"@, s.high_entropy)
}

/// The indicator of few imports.
spec fn dropper_count(s: SignalsView) -> Seq<Seq<char>> {
    flagged("minimal imports ("@ + decimal(s.import_count) + ")"@, s.minimal_imports())
}

proof fn dropper_finds_stay(a: SignalsView, b: SignalsView)
    requires
        extends(a, b),
    ensures
        is_subsequence(dropper_finds(a), dropper_finds(b)),
{
    if a.import(DOWNLOAD_APIS@) is Some {
        import_found_stays(a, b, DOWNLOAD_APIS@);
    }
    if a.import(FILE_WRITE_APIS@) is Some {
        import_found_stays(a, b, FILE_WRITE_APIS@);
    }
    if a.import(PAYLOAD_EXECUTION_APIS@) is Some {
        import_found_stays(a, b, PAYLOAD_EXECUTION_APIS@);
    }
    if a.string(DOWNLOAD_STRINGS@) is Some {
        string_found_stays(a, b, DOWNLOAD_STRINGS@);
    }
    if a.has(StringCategory::Url) {
        category_found_stays(a, b, StringCategory::Url);
    }
    let a0 = flagged(
        "download capability"@,
        a.import(DOWNLOAD_APIS@) is Some || a.has(StringCategory::Url)
            || a.string(DOWNLOAD_STRINGS@) is Some,
    );
    let b0 = flagged(
        "download capability"@,
        b.import(DOWNLOAD_APIS@) is Some || b.has(StringCategory::Url)
            || b.string(DOWNLOAD_STRINGS@) is Some,
    );
    let a1 = flagged("writes files to disk"@, a.import(FILE_WRITE_APIS@) is Some);
    let b1 = flagged("writes files to disk"@, b.import(FILE_WRITE_APIS@) is Some);
    let a2 = flagged("executes payload"@, a.import(PAYLOAD_EXECUTION_APIS@) is Some);
    let b2 = flagged("executes payload"@, b.import(PAYLOAD_EXECUTION_APIS@) is Some);
    let a3 = flagged("embedded high-entropy payload"@, a.high_entropy);
    let b3 = flagged("embedded high-entropy payload"@, b.high_entropy);
    small_part_kept(a0, b0);
    small_part_kept(a1, b1);
    small_part_kept(a2, b2);
    small_part_kept(a3, b3);
    parts_append(a0, b0, a1, b1);
    parts_append(a0 + a1, b0 + b1, a2, b2);
    parts_append(a0 + a1 + a2, b0 + b1 + b2, a3, b3);
}

proof fn dropper_stays(a: SignalsView, b: SignalsView)
    requires
        extends(a, b),
        a.minimal_imports() ==> b.minimal_imports(),
    ensures
        a.import_count == b.import_count || !a.minimal_imports() ==> is_subsequence(
            a.dropper_indicators(),
            b.dropper_indicators(),
        ),
        a.dropper_indicators().len() <= b.dropper_indicators().len(),
{
    dropper_finds_stay(a, b);
    subsequence_is_no_longer(dropper_finds(a), dropper_finds(b));
    assert(a.dropper_indicators() == dropper_finds(a) + dropper_count(a));
    assert(b.dropper_indicators() == dropper_finds(b) + dropper_count(b));
    if a.import_count == b.import_count || !a.minimal_imports() {
        small_part_kept(dropper_count(a), dropper_count(b));
        parts_append(dropper_finds(a), dropper_finds(b), dropper_count(a), dropper_count(b));
    }
}

/// Further findings never make a pattern disappear: it keeps its text and its indicators,
/// in their order, and its confidence does not fall. Of a dropper this holds as long as
/// imports that were few are still few; the indicator that counts them is the same only
/// where their number is.
pub proof fn further_findings_keep_patterns(a: SignalsView, b: SignalsView)
    requires
        extends(a, b),
    ensures
        kept(a.ransomware(), b.ransomware()),
        kept(a.reverse_shell(), b.reverse_shell()),
        kept(a.keylogger(), b.keylogger()),
        kept(a.rootkit(), b.rootkit()),
        !a.minimal_imports() || a.import_count == b.import_count ==> kept(
            a.dropper(),
            b.dropper(),
        ),
        (a.minimal_imports() ==> b.minimal_imports()) && a.dropper() is Some ==> {
            &&& b.dropper() is Some
            &&& a.dropper()->0.indicators.len() <= b.dropper()->0.indicators.len()
            &&& a.dropper()->0.confidence <= b.dropper()->0.confidence
            &&& same_text(a.dropper()->0, b.dropper()->0)
        },
{
    ransomware_stays(a, b);
    reverse_shell_stays(a, b);
    keylogger_stays(a, b);
    rootkit_stays(a, b);
    if a.minimal_imports() ==> b.minimal_imports() {
        dropper_stays(a, b);
        pattern_with_more_indicators(
            dropper_head(),
            a.dropper_indicators(),
            b.dropper_indicators(),
            5,
        );
    }
}

// ---------------------------------------------------------------------------
// Evasion techniques
// ---------------------------------------------------------------------------

/// A shortened text has at most three characters more than it was cut to, begins as the
/// text does, and is the text itself where that is short enough.
pub proof fn truncated_is_bounded(s: Seq<char>, max: nat)
    ensures
        truncated(s, max).len() <= max + 3,
        s.len() <= max ==> truncated(s, max) == s,
        s.len() > max ==> truncated(s, max).take(max as int) == s.take(max as int),
{
    reveal_strlit("...");
    if s.len() > max {
        assert(truncated(s, max).take(max as int) =~= s.take(max as int));
    }
}

/// The report is the concatenation of what the four definitions and the string report.
pub proof fn techniques_unfolded(functions: Seq<Seq<char>>, anti_analysis: Option<Seq<char>>)
    ensures
        ({
            let t = technique_table();
            evasion_techniques(functions, anti_analysis) == import_technique(t[0], functions)
                + import_technique(t[1], functions) + import_technique(t[2], functions)
                + import_technique(t[3], functions) + environment_technique(anti_analysis)
        }),
{
    let t = technique_table();
    assert(t.drop_last() =~= t.take(3));
    assert(t.take(3).drop_last() =~= t.take(2));
    assert(t.take(2).drop_last() =~= t.take(1));
    assert(t.take(1).drop_last() =~= t.take(0));
    reveal_with_fuel(import_techniques, 5);
    assert(import_techniques(t, functions) =~= import_technique(t[0], functions)
        + import_technique(t[1], functions) + import_technique(t[2], functions)
        + import_technique(t[3], functions));
}

proof fn categories_differ()
    ensures
        "timing"@ != "anti-debug"@,
        "timing"@ != "resource"@,
        "timing"@ != "interaction"@,
        "timing"@ != "environment"@,
        "anti-debug"@ != "resource"@,
        "anti-debug"@ != "interaction"@,
        "anti-debug"@ != "environment"@,
        "resource"@ != "interaction"@,
        "resource"@ != "environment"@,
        "interaction"@ != "environment"@,
{
    reveal_strlit("timing");
    reveal_strlit("anti-debug");
    reveal_strlit("resource");
    reveal_strlit("interaction");
    reveal_strlit("environment");
    assert("timing"@.len() == 6);
    assert("anti-debug"@.len() == 10);
    assert("resource"@.len() == 8);
    assert("interaction"@[0] == 'i' && "interaction"@.len() == 11);
    assert("environment"@[0] == 'e' && "environment"@.len() == 11);
}

/// At most one technique of each category is reported, so at most five.
pub proof fn technique_categories_are_distinct(
    functions: Seq<Seq<char>>,
    anti_analysis: Option<Seq<char>>,
)
    ensures
        evasion_techniques(functions, anti_analysis).len() <= 5,
        categories_of(evasion_techniques(functions, anti_analysis)).no_duplicates(),
{
    techniques_unfolded(functions, anti_analysis);
    categories_differ();
    let t = technique_table();
    let a = import_technique(t[0], functions);
    let b = a + import_technique(t[1], functions);
    let c = b + import_technique(t[2], functions);
    let d = c + import_technique(t[3], functions);
    assert(evasion_techniques(functions, anti_analysis) == d + environment_technique(
        anti_analysis,
    ));
}

/// Some import is one of the APIs of `def`.
pub open spec fn gives_away(def: TechniqueDef, functions: Seq<Seq<char>>) -> bool {
    exists|i: int|
        0 <= i < functions.len() && matches_any(#[trigger] functions[i], str_views(def.apis@))
}

pub proof fn technique_reported_iff(def: TechniqueDef, functions: Seq<Seq<char>>)
    ensures
        import_technique(def, functions).len() == if gives_away(def, functions) {
            1nat
        } else {
            0
        },
{
    evidence_is_first_matching_import(functions, str_views(def.apis@));
}

/// A technique is reported exactly when an import gives it away, and environment
/// fingerprinting exactly when there is an anti-analysis string. So nothing is reported
/// of a binary without any of these.
pub proof fn technique_reported_iff_given_away(
    functions: Seq<Seq<char>>,
    anti_analysis: Option<Seq<char>>,
)
    ensures
        forall|d: int|
            0 <= d < technique_table().len() ==> (gives_away(
                #[trigger] technique_table()[d],
                functions,
            ) <==> categories_of(evasion_techniques(functions, anti_analysis)).contains(
                technique_table()[d].category@,
            )),
        anti_analysis is Some <==> categories_of(
            evasion_techniques(functions, anti_analysis),
        ).contains("environment"@),
        evasion_techniques(functions, anti_analysis).len() == 0 <==> {
            &&& anti_analysis is None
            &&& forall|d: int|
                0 <= d < technique_table().len() ==> !gives_away(
                    #[trigger] technique_table()[d],
                    functions,
                )
        },
{
    let t = technique_table();
    techniques_unfolded(functions, anti_analysis);
    categories_differ();
    technique_reported_iff(t[0], functions);
    technique_reported_iff(t[1], functions);
    technique_reported_iff(t[2], functions);
    technique_reported_iff(t[3], functions);
    let p0 = import_technique(t[0], functions);
    let p1 = import_technique(t[1], functions);
    let p2 = import_technique(t[2], functions);
    let p3 = import_technique(t[3], functions);
    let p4 = environment_technique(anti_analysis);
    let all = evasion_techniques(functions, anti_analysis);
    let c = categories_of(all);
    if p0.len() > 0 {
        assert(c[0] == t[0].category@);
    }
    if p1.len() > 0 {
        assert(c[p0.len() as int] == t[1].category@);
    }
    if p2.len() > 0 {
        assert(c[(p0 + p1).len() as int] == t[2].category@);
    }
    if p3.len() > 0 {
        assert(c[(p0 + p1 + p2).len() as int] == t[3].category@);
    }
    if p4.len() > 0 {
        assert(c[(p0 + p1 + p2 + p3).len() as int] == "environment"@);
    }
    assert forall|i: int| 0 <= i < c.len() implies {
        ||| (#[trigger] c[i] == t[0].category@ && p0.len() > 0)
        ||| (c[i] == t[1].category@ && p1.len() > 0)
        ||| (c[i] == t[2].category@ && p2.len() > 0)
        ||| (c[i] == t[3].category@ && p3.len() > 0)
        ||| (c[i] == "environment"@ && p4.len() > 0)
    } by {
        assert(c[i] == all[i].category);
    }
}

/// A result reports as many categories as techniques.
pub proof fn as_many_categories_as_techniques(
    r: SandboxEvasionResult,
    functions: Seq<Seq<char>>,
    anti_analysis: Option<Seq<char>>,
)
    requires
        r.reports(evasion_techniques(functions, anti_analysis)),
    ensures
        r.categories@.len() == r.technique_count,
        r.technique_count == r.techniques@.len(),
{
    technique_categories_are_distinct(functions, anti_analysis);
    let sorted = views(r.categories@);
    let of = categories_of(evasion_techniques(functions, anti_analysis));
    assert forall|i: int, j: int|
        0 <= i < sorted.len() && 0 <= j < sorted.len() && i != j implies sorted[i] != sorted[j] by {
        if i < j {
            assert(lex_less(sorted[i], sorted[j]));
        } else {
            assert(lex_less(sorted[j], sorted[i]));
        }
        lex_less_irreflexive(sorted[i]);
    }
    assert(sorted.no_duplicates());
    sorted.unique_seq_to_set();
    of.unique_seq_to_set();
    assert(sorted.to_set() =~= of.to_set()) by {
        assert forall|x: Seq<char>| sorted.to_set().contains(x) <==> of.to_set().contains(x) by {
            assert(sorted.contains(x) <==> of.contains(x));
        }
    }
    assert(technique_views(r.techniques@).len() == r.techniques@.len());
}

proof fn technique_stays(
    def: TechniqueDef,
    functions: Seq<Seq<char>>,
    more: Seq<Seq<char>>,
)
    ensures
        is_subsequence(import_technique(def, functions), import_technique(def, functions + more)),
{
    let a = import_technique(def, functions);
    let b = import_technique(def, functions + more);
    let apis = str_views(def.apis@);
    if first_import(functions, apis) is Some {
        find_first_keeps_on_extension(functions, more, |f: Seq<char>| matches_any(f, apis));
        assert(a == b);
        subsequence_by(a, b, Seq::new(a.len(), |i: int| i));
    } else {
        subsequence_by(a, b, seq![]);
    }
}

/// Further imports never make a technique disappear or change what is said of it, its
/// evidence included: the techniques are among the later ones in the same order. The
/// categories of two lists of imports together are those of either.
pub proof fn further_imports_keep_techniques(
    functions: Seq<Seq<char>>,
    more: Seq<Seq<char>>,
    anti_analysis: Option<Seq<char>>,
)
    ensures
        is_subsequence(
            evasion_techniques(functions, anti_analysis),
            evasion_techniques(functions + more, anti_analysis),
        ),
        forall|t: TechniqueView| #[trigger]
            evasion_techniques(functions, anti_analysis).contains(t) ==> evasion_techniques(
                functions + more,
                anti_analysis,
            ).contains(t),
        forall|c: Seq<char>| #[trigger]
            categories_of(evasion_techniques(functions + more, anti_analysis)).contains(c) <==> (
            categories_of(evasion_techniques(functions, anti_analysis)).contains(c)
                || categories_of(evasion_techniques(more, anti_analysis)).contains(c)),
{
    let t = technique_table();
    let both = functions + more;
    let before = evasion_techniques(functions, anti_analysis);
    let after = evasion_techniques(both, anti_analysis);
    techniques_unfolded(functions, anti_analysis);
    techniques_unfolded(both, anti_analysis);
    let (a0, b0) = (import_technique(t[0], functions), import_technique(t[0], both));
    let (a1, b1) = (import_technique(t[1], functions), import_technique(t[1], both));
    let (a2, b2) = (import_technique(t[2], functions), import_technique(t[2], both));
    let (a3, b3) = (import_technique(t[3], functions), import_technique(t[3], both));
    let e = environment_technique(anti_analysis);
    technique_stays(t[0], functions, more);
    technique_stays(t[1], functions, more);
    technique_stays(t[2], functions, more);
    technique_stays(t[3], functions, more);
    subsequence_by(e, e, Seq::new(e.len(), |i: int| i));
    parts_append(a0, b0, a1, b1);
    parts_append(a0 + a1, b0 + b1, a2, b2);
    parts_append(a0 + a1 + a2, b0 + b1 + b2, a3, b3);
    parts_append(a0 + a1 + a2 + a3, b0 + b1 + b2 + b3, e, e);
    let at = choose|at: Seq<int>| embeds(before, after, at);
    assert forall|x: TechniqueView| #[trigger] before.contains(x) implies after.contains(x) by {
        let i = choose|i: int| 0 <= i < before.len() && before[i] == x;
        assert(after[at[i]] == x);
    }
    categories_of_both(functions, more, anti_analysis);
}

proof fn categories_of_both(
    functions: Seq<Seq<char>>,
    more: Seq<Seq<char>>,
    anti_analysis: Option<Seq<char>>,
)
    ensures
        forall|c: Seq<char>| #[trigger]
            categories_of(evasion_techniques(functions + more, anti_analysis)).contains(c) <==> (
            categories_of(evasion_techniques(functions, anti_analysis)).contains(c)
                || categories_of(evasion_techniques(more, anti_analysis)).contains(c)),
{
    let t = technique_table();
    let both = functions + more;
    technique_reported_iff_given_away(functions, anti_analysis);
    technique_reported_iff_given_away(more, anti_analysis);
    technique_reported_iff_given_away(both, anti_analysis);
    assert forall|d: int| 0 <= d < t.len() implies (gives_away(#[trigger] t[d], both) <==> (
    gives_away(t[d], functions) || gives_away(t[d], more))) by {
        given_away_by_either(t[d], functions, more);
    }
    assert forall|c: Seq<char>| #[trigger]
        categories_of(evasion_techniques(both, anti_analysis)).contains(c) <==> (categories_of(
            evasion_techniques(functions, anti_analysis),
        ).contains(c) || categories_of(evasion_techniques(more, anti_analysis)).contains(c)) by {
        if categories_of(evasion_techniques(both, anti_analysis)).contains(c) {
            reported_category_is_known(both, anti_analysis, c);
        }
        if categories_of(evasion_techniques(functions, anti_analysis)).contains(c) {
            reported_category_is_known(functions, anti_analysis, c);
        }
        if categories_of(evasion_techniques(more, anti_analysis)).contains(c) {
            reported_category_is_known(more, anti_analysis, c);
        }
        if exists|d: int| 0 <= d < t.len() && #[trigger] t[d].category@ == c {
            let d = choose|d: int| 0 <= d < t.len() && #[trigger] t[d].category@ == c;
            assert(gives_away(t[d], both) <==> (gives_away(t[d], functions) || gives_away(
                t[d],
                more,
            )));
        }
    }
}

proof fn given_away_by_either(def: TechniqueDef, functions: Seq<Seq<char>>, more: Seq<Seq<char>>)
    ensures
        gives_away(def, functions + more) <==> (gives_away(def, functions) || gives_away(
            def,
            more,
        )),
{
    let both = functions + more;
    let apis = str_views(def.apis@);
    if gives_away(def, both) {
        let i = choose|i: int| 0 <= i < both.len() && matches_any(#[trigger] both[i], apis);
        if i < functions.len() {
            assert(functions[i] == both[i]);
        } else {
            assert(more[i - functions.len()] == both[i]);
        }
    }
    if gives_away(def, functions) {
        let i = choose|i: int|
            0 <= i < functions.len() && matches_any(#[trigger] functions[i], apis);
        assert(both[i] == functions[i]);
    }
    if gives_away(def, more) {
        let i = choose|i: int| 0 <= i < more.len() && matches_any(#[trigger] more[i], apis);
        assert(both[functions.len() + i] == more[i]);
    }
}

/// The category of a technique that is reported is that of a definition, or the
/// environment's.
pub proof fn reported_category_is_known(
    functions: Seq<Seq<char>>,
    anti_analysis: Option<Seq<char>>,
    c: Seq<char>,
)
    requires
        categories_of(evasion_techniques(functions, anti_analysis)).contains(c),
    ensures
        c == "environment"@ || exists|d: int|
            0 <= d < technique_table().len() && #[trigger] technique_table()[d].category@ == c,
{
    techniques_unfolded(functions, anti_analysis);
    let t = technique_table();
    let all = evasion_techniques(functions, anti_analysis);
    let i = choose|i: int| 0 <= i < categories_of(all).len() && categories_of(all)[i] == c;
    assert(all[i].category == c);
    assert(c == t[0].category@ || c == t[1].category@ || c == t[2].category@ || c
        == t[3].category@ || c == "environment"@);
}

// ---------------------------------------------------------------------------
// Passes
// ---------------------------------------------------------------------------

/// Two contexts hold the same results of the earlier passes.
pub open spec fn same_inputs(a: AnalysisContext, b: AnalysisContext) -> bool {
    &&& a.import_result == b.import_result
    &&& a.string_result == b.string_result
    &&& a.entropy_result == b.entropy_result
}

/// The behaviour pass reads the results of its dependencies and nothing else: the names
/// of the imports, the entropy, and of each string its category and its lower case, so
/// letter case does not count.
pub proof fn behavior_depends_on_its_dependencies(a: AnalysisContext, b: AnalysisContext)
    requires
        import_names(a.import_result) == import_names(b.import_result),
        a.entropy_result == b.entropy_result,
        found_strings(a.string_result).len() == found_strings(b.string_result).len(),
        forall|i: int|
            0 <= i < found_strings(a.string_result).len() ==> {
                let s = #[trigger] found_strings(a.string_result)[i];
                let t = found_strings(b.string_result)[i];
                s.category == t.category && lowercase(s.value@) == lowercase(t.value@)
            },
    ensures
        context_signals(a) == context_signals(b),
        context_signals(a).patterns() == context_signals(b).patterns(),
{
    assert(context_signals(a) =~= context_signals(b));
}

/// The sandbox pass reads the results of its dependencies and nothing else; the entropy
/// does not count.
pub proof fn sandbox_depends_on_its_dependencies(a: AnalysisContext, b: AnalysisContext)
    requires
        a.import_result == b.import_result,
        a.string_result == b.string_result,
    ensures
        context_techniques(a) == context_techniques(b),
{
}

/// Without imports, strings and entropy neither pass reports anything.
pub proof fn nothing_known_nothing_reported(ctx: AnalysisContext)
    requires
        ctx.import_result is None,
        ctx.string_result is None,
        ctx.entropy_result is None,
    ensures
        context_signals(ctx).patterns().len() == 0,
        context_techniques(ctx).len() == 0,
{
    let s = context_signals(ctx);
    assert(s.functions =~= seq![] && s.string_values =~= seq![] && s.categories =~= seq![]);
    pattern_fires_iff_enough_indicators(s);
    technique_reported_iff_given_away(import_names(ctx.import_result), None);
}

/// The two passes may run in either order: the same patterns, techniques and categories
/// come out, and what the earlier passes left is as it was.
pub proof fn passes_run_in_any_order(
    start: AnalysisContext,
    behavior_first: AnalysisContext,
    sandbox_first: AnalysisContext,
    end: AnalysisContext,
    other_end: AnalysisContext,
)
    requires
        BehaviorPass.outcome(start, behavior_first),
        SandboxEvasionPass.outcome(behavior_first, end),
        SandboxEvasionPass.outcome(start, sandbox_first),
        BehaviorPass.outcome(sandbox_first, other_end),
    ensures
        same_inputs(start, end),
        same_inputs(start, other_end),
        end.behavior_result matches Some(p) && other_end.behavior_result matches Some(q)
            && pattern_views(p.patterns@) == pattern_views(q.patterns@),
        end.sandbox_result matches Some(r) && other_end.sandbox_result matches Some(s) && {
            &&& technique_views(r.techniques@) == technique_views(s.techniques@)
            &&& r.technique_count == s.technique_count
            &&& views(r.categories@) == views(s.categories@)
        },
{
    let r = end.sandbox_result->0;
    let s = other_end.sandbox_result->0;
    sorted_unique_is_determined(
        views(r.categories@),
        views(s.categories@),
        categories_of(context_techniques(start)),
    );
}

/// Running the passes again changes nothing that they report.
pub proof fn passes_run_again_report_the_same(
    start: AnalysisContext,
    once: AnalysisContext,
    twice: AnalysisContext,
)
    ensures
        BehaviorPass.outcome(start, once) && BehaviorPass.outcome(once, twice) ==> (
        once.behavior_result matches Some(p) && twice.behavior_result matches Some(q)
            && pattern_views(p.patterns@) == pattern_views(q.patterns@)),
        SandboxEvasionPass.outcome(start, once) && SandboxEvasionPass.outcome(once, twice) ==> (
        once.sandbox_result matches Some(r) && twice.sandbox_result matches Some(s) && {
            &&& technique_views(r.techniques@) == technique_views(s.techniques@)
            &&& r.technique_count == s.technique_count
            &&& views(r.categories@) == views(s.categories@)
        }),
{
    if SandboxEvasionPass.outcome(start, once) && SandboxEvasionPass.outcome(once, twice) {
        sorted_unique_is_determined(
            views(once.sandbox_result->0.categories@),
            views(twice.sandbox_result->0.categories@),
            categories_of(context_techniques(start)),
        );
    }
}

} // verus!
