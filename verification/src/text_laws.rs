//! What the text primitives mean, each said in another way than it is defined.

use vstd::prelude::*;
use vstd::utf8::is_ascii_chars;
use crate::matching::{api_match, lowered_match};
use crate::text::{ascii_lower, decimal, is_sorted_unique, is_substring, lex_less, lowercase};
use crate::text::{occurs_at, unicode_lowercase, views};

verus! {

/// A text contains another exactly when it is that text with something before and
/// something behind it.
pub proof fn substring_is_infix(needle: Seq<char>, hay: Seq<char>)
    ensures
        is_substring(needle, hay) <==> exists|a: Seq<char>, b: Seq<char>|
            hay == #[trigger] (a + needle + b),
{
    if is_substring(needle, hay) {
        let i = choose|i: int| occurs_at(needle, hay, i);
        let a = hay.subrange(0, i);
        let b = hay.subrange(i + needle.len(), hay.len() as int);
        assert(needle == hay.subrange(i, i + needle.len()));
        assert(hay =~= a + needle + b);
    }
    if exists|a: Seq<char>, b: Seq<char>| hay == #[trigger] (a + needle + b) {
        let (a, b) = choose|a: Seq<char>, b: Seq<char>| hay == #[trigger] (a + needle + b);
        assert(hay.subrange(a.len() as int, (a.len() + needle.len()) as int) =~= needle);
        assert(occurs_at(needle, hay, a.len() as int));
    }
}

/// The lower case of an ASCII text has its length, `a` to `z` for `A` to `Z`, and every
/// other character as it was; that of any other text is Unicode's.
pub proof fn lowercase_letter_by_letter(s: Seq<char>)
    ensures
        !is_ascii_chars(s) ==> lowercase(s) == unicode_lowercase(s),
        is_ascii_chars(s) ==> {
            &&& lowercase(s).len() == s.len()
            &&& forall|i: int|
                0 <= i < s.len() && 65 <= s[i] as u32 <= 90 ==> (#[trigger] lowercase(s)[i]) as u32
                    == s[i] as u32 + 32
            &&& forall|i: int|
                0 <= i < s.len() && !(65 <= s[i] as u32 <= 90) ==> #[trigger] lowercase(s)[i]
                    == s[i]
        },
{
    if is_ascii_chars(s) {
        assert forall|i: int| 0 <= i < s.len() implies #[trigger] lowercase(s)[i] == ascii_lower(
            s[i],
        ) by {}
    }
}

/// The lower case of an ASCII text has no upper-case letter and is its own lower case.
pub proof fn lowercase_is_final(s: Seq<char>)
    requires
        is_ascii_chars(s),
    ensures
        is_ascii_chars(lowercase(s)),
        lowercase(lowercase(s)) == lowercase(s),
{
    lowercase_letter_by_letter(s);
    let l = lowercase(s);
    assert forall|i: int| 0 <= i < l.len() implies '\0' <= #[trigger] l[i] <= '\u{7f}' && !(65
        <= l[i] as u32 <= 90) by {
        assert('\0' <= s[i] <= '\u{7f}');
        if 65 <= s[i] as u32 <= 90 {
            assert(lowercase(s)[i] as u32 == s[i] as u32 + 32);
        } else {
            assert(lowercase(s)[i] == s[i]);
        }
    }
    lowercase_letter_by_letter(l);
    assert(lowercase(l) =~= l);
}

/// A name in lower case is an API in lower case exactly when it begins with it and ends
/// there, or one letter later, with `a` or `w`.
pub proof fn lowered_match_is_prefix_and_letter(lower: Seq<char>, api_lower: Seq<char>)
    ensures
        lowered_match(lower, api_lower) <==> {
            &&& api_lower.is_prefix_of(lower)
            &&& lower.len() == api_lower.len() || (lower.len() == api_lower.len() + 1 && (
            lower.last() == 'a' || lower.last() == 'w'))
        },
{
    if api_lower.is_prefix_of(lower) {
        if lower.len() == api_lower.len() {
            assert(lower =~= api_lower);
        } else if lower.len() == api_lower.len() + 1 {
            assert(lower =~= api_lower.push(lower.last()));
        }
    }
    if lower == api_lower.push('a') || lower == api_lower.push('w') {
        assert(lower.subrange(0, api_lower.len() as int) =~= api_lower);
        assert(api_lower.is_prefix_of(lower));
    }
    if lower == api_lower {
        assert(lower.subrange(0, api_lower.len() as int) =~= api_lower);
        assert(api_lower.is_prefix_of(lower));
    }
}

/// A name is an API exactly when the lower case of the name begins with that of the API
/// and ends there, or one letter later, with `a` or `w`.
pub proof fn match_is_prefix_and_letter(name: Seq<char>, api: Seq<char>)
    ensures
        api_match(name, api) <==> {
            &&& lowercase(api).is_prefix_of(lowercase(name))
            &&& lowercase(name).len() == lowercase(api).len() || (lowercase(name).len()
                == lowercase(api).len() + 1 && (lowercase(name).last() == 'a' || lowercase(
                name,
            ).last() == 'w'))
        },
{
    lowered_match_is_prefix_and_letter(lowercase(name), lowercase(api));
}

/// `a` stands before `b` exactly when they agree up to some place at which `a` ends and
/// `b` goes on, or at which `a` has the smaller character.
pub proof fn order_is_by_first_difference(a: Seq<char>, b: Seq<char>)
    ensures
        lex_less(a, b) <==> exists|k: int| #[trigger] differ_first_at(a, b, k),
    decreases a.len(),
{
    if lex_less(a, b) {
        if a.len() == 0 || a[0] < b[0] {
            assert(differ_first_at(a, b, 0));
        } else {
            let (x, y) = (a.drop_first(), b.drop_first());
            order_is_by_first_difference(x, y);
            let k = choose|k: int| #[trigger] differ_first_at(x, y, k);
            assert forall|i: int| 0 <= i < k + 1 implies #[trigger] a[i] == b[i] by {
                if i > 0 {
                    assert(x[i - 1] == y[i - 1]);
                }
            }
            assert(differ_first_at(a, b, k + 1));
        }
    }
    if exists|k: int| #[trigger] differ_first_at(a, b, k) {
        let k = choose|k: int| #[trigger] differ_first_at(a, b, k);
        if k > 0 {
            let (x, y) = (a.drop_first(), b.drop_first());
            order_is_by_first_difference(x, y);
            assert(a[0] == b[0]);
            assert forall|i: int| 0 <= i < k - 1 implies #[trigger] x[i] == y[i] by {
                assert(a[i + 1] == b[i + 1]);
            }
            assert(differ_first_at(x, y, k - 1));
        }
    }
}

/// `a` and `b` agree before `k`, where `a` ends and `b` goes on or `a` has the smaller
/// character.
pub open spec fn differ_first_at(a: Seq<char>, b: Seq<char>, k: int) -> bool {
    &&& 0 <= k <= a.len()
    &&& k < b.len()
    &&& forall|i: int| 0 <= i < k ==> #[trigger] a[i] == b[i]
    &&& k == a.len() || a[k] < b[k]
}

/// One of the texts of the list is `text`.
pub open spec fn among(text: Seq<char>, list: Seq<String>) -> bool {
    exists|j: int| 0 <= j < list.len() && #[trigger] list[j]@ == text
}

/// `a` stands before `b`, by their first difference.
pub open spec fn comes_first(a: Seq<char>, b: Seq<char>) -> bool {
    exists|k: int| #[trigger] differ_first_at(a, b, k)
}

/// Sorting without duplicates keeps every text, adds none, and puts each strictly before
/// the ones behind it.
pub proof fn sorting_keeps_and_orders(r: Seq<String>, v: Seq<String>)
    requires
        is_sorted_unique(views(r), views(v)),
    ensures
        forall|text: Seq<char>| #[trigger] among(text, r) <==> among(text, v),
        forall|i: int, j: int| 0 <= i < j < r.len() ==> #[trigger] comes_first(r[i]@, r[j]@),
{
    let (x, y) = (views(r), views(v));
    assert forall|text: Seq<char>| #[trigger] among(text, r) <==> among(text, v) by {
        text_among_views(text, r);
        text_among_views(text, v);
        assert(x.contains(text) <==> y.contains(text));
    }
    assert forall|i: int, j: int| 0 <= i < j < r.len() implies #[trigger] comes_first(
        r[i]@,
        r[j]@,
    ) by {
        assert(lex_less(x[i], x[j]));
        order_is_by_first_difference(x[i], x[j]);
    }
}

/// A text is among strings exactly when it is one of their character sequences.
pub proof fn text_among_views(text: Seq<char>, list: Seq<String>)
    ensures
        among(text, list) <==> views(list).contains(text),
{
    if among(text, list) {
        let j = choose|j: int| 0 <= j < list.len() && #[trigger] list[j]@ == text;
        assert(views(list)[j] == text);
    }
    if views(list).contains(text) {
        let j = choose|j: int| 0 <= j < views(list).len() && views(list)[j] == text;
        assert(list[j]@ == text);
    }
}

/// The number that a text of digits stands for.
pub open spec fn number_of(digits: Seq<char>) -> nat
    decreases digits.len(),
{
    if digits.len() == 0 {
        0
    } else {
        10 * number_of(digits.drop_last()) + (digits.last() as nat - 48) as nat
    }
}

/// The decimal text of a number stands for that number, is made of digits, and has no
/// leading zero but that of zero itself.
pub proof fn decimal_stands_for_its_number(n: nat)
    ensures
        number_of(decimal(n)) == n,
        decimal(n).len() > 0,
        forall|i: int| 0 <= i < decimal(n).len() ==> '0' <= #[trigger] decimal(n)[i] <= '9',
        n > 0 ==> decimal(n)[0] != '0',
        n == 0 ==> decimal(n) == seq!['0'],
    decreases n,
{
    let d = decimal(n);
    if n < 10 {
        assert(d.drop_last() =~= seq![]);
        assert(number_of(d.drop_last()) == 0);
        assert(d.last() as nat == 48 + n);
        assert(d[0] as nat == 48 + n);
        if n == 0 {
            assert(d =~= seq!['0']);
        }
    } else {
        decimal_stands_for_its_number(n / 10);
        let e = decimal(n / 10);
        assert(d.drop_last() =~= e);
        assert(d.last() as nat == 48 + n % 10);
        assert(d[0] == e[0]);
        assert forall|i: int| 0 <= i < d.len() implies '0' <= #[trigger] d[i] <= '9' by {
            if i < e.len() {
                assert(d[i] == e[i]);
            }
        }
    }
}

} // verus!
