//! Matching of imported function names against known API names: letter case
//! does not count, and one trailing `A` or `W` (the Windows ANSI and wide
//! variants of an API) is allowed.

use vstd::prelude::*;
use vstd::utf8::is_ascii_chars;
use crate::text::{ascii_lower, ascii_lowercase, find_first, lowercase, opt_view, str_views, views};
use crate::text::to_lowercase;

verus! {

/// A lower-case name is a lower-case API name, or that name with an `a` or `w` behind it.
pub open spec fn lowered_match(lower: Seq<char>, api_lower: Seq<char>) -> bool {
    ||| lower == api_lower
    ||| lower == api_lower.push('a')
    ||| lower == api_lower.push('w')
}

/// `name` is the API `api` in some letter case, or its `A` or `W` variant.
pub open spec fn api_match(name: Seq<char>, api: Seq<char>) -> bool {
    lowered_match(lowercase(name), lowercase(api))
}

/// `name` is one of `apis`.
pub open spec fn matches_any(name: Seq<char>, apis: Seq<Seq<char>>) -> bool {
    exists|j: int| 0 <= j < apis.len() && api_match(name, #[trigger] apis[j])
}

/// The first of `functions` that is one of `apis`.
pub open spec fn first_import(functions: Seq<Seq<char>>, apis: Seq<Seq<char>>) -> Option<
    Seq<char>,
> {
    find_first(functions, |f: Seq<char>| matches_any(f, apis))
}

/// Compares two names that are in lower case already.
pub fn lowered_matches(lower: &String, api_lower: &String) -> (r: bool)
    ensures
        r == lowered_match(lower@, api_lower@),
{
    if *lower == *api_lower {
        return true;
    }
    let ansi: String = api_lower.clone().concat("a");
    let wide: String = api_lower.clone().concat("w");
    proof {
        reveal_strlit("a");
        reveal_strlit("w");
        assert(ansi@ =~= api_lower@.push('a'));
        assert(wide@ =~= api_lower@.push('w'));
    }
    *lower == ansi || *lower == wide
}

/// Whether `name` is the API `api` in some letter case, or its `A` or `W` variant.
pub fn names_api(name: &str, api: &str) -> (r: bool)
    ensures
        r == api_match(name@, api@),
{
    let lower = to_lowercase(name);
    let api_lower = to_lowercase(api);
    lowered_matches(&lower, &api_lower)
}

/// Whether `name` is one of `apis`.
fn names_any(name: &str, apis: &[&str]) -> (r: bool)
    ensures
        r == matches_any(name@, str_views(apis@)),
{
    let mut j: usize = 0;
    while j < apis.len()
        invariant
            j <= apis@.len(),
            forall|k: int| 0 <= k < j ==> !api_match(name@, #[trigger] str_views(apis@)[k]),
        decreases apis@.len() - j,
    {
        if names_api(name, apis[j]) {
            assert(api_match(name@, str_views(apis@)[j as int]));
            return true;
        }
        j += 1;
    }
    false
}

/// The first of `functions` that is one of `apis`, as it is written there.
pub fn first_matching(functions: &[String], apis: &[&str]) -> (r: Option<String>)
    ensures
        opt_view(r) == first_import(views(functions@), str_views(apis@)),
{
    let ghost names = views(functions@);
    let ghost p = |f: Seq<char>| matches_any(f, str_views(apis@));
    let mut i: usize = 0;
    assert(names.skip(0) =~= names);
    while i < functions.len()
        invariant
            names == views(functions@),
            p == (|f: Seq<char>| matches_any(f, str_views(apis@))),
            i <= functions@.len(),
            find_first(names, p) == find_first(names.skip(i as int), p),
        decreases functions@.len() - i,
    {
        if names_any(functions[i].as_str(), apis) {
            return Some(functions[i].clone());
        }
        assert(names.skip(i as int).drop_first() =~= names.skip(i + 1));
        i += 1;
    }
    None
}

/// Letter case does not count: names with the same lower case match the same APIs.
pub proof fn match_ignores_case(name: Seq<char>, other: Seq<char>, api: Seq<char>)
    requires
        lowercase(name) == lowercase(other),
    ensures
        api_match(name, api) == api_match(other, api),
        api_match(api, name) == api_match(api, other),
{
}

/// Every name is a match of itself.
pub proof fn match_is_reflexive(name: Seq<char>)
    ensures
        api_match(name, name),
{
}

/// Two characters are the same ASCII letter, or the same character.
pub open spec fn same_letter(c: char, d: char) -> bool {
    ascii_lower(c) == ascii_lower(d)
}

/// What a match of ASCII names is, letter by letter: the API name in any letter case,
/// with nothing behind it or exactly one `a`, `A`, `w` or `W`. So a longer name that
/// merely contains the API name is no match.
pub proof fn match_is_name_or_variant(name: Seq<char>, api: Seq<char>)
    requires
        is_ascii_chars(name),
        is_ascii_chars(api),
    ensures
        api_match(name, api) <==> {
            &&& api.len() <= name.len() <= api.len() + 1
            &&& forall|i: int| 0 <= i < api.len() ==> same_letter(#[trigger] name[i], api[i])
            &&& name.len() == api.len() + 1 ==> (same_letter(name.last(), 'a') || same_letter(
                name.last(),
                'w',
            ))
        },
{
    let l = ascii_lowercase(name);
    let a = ascii_lowercase(api);
    assert(l.len() == name.len() && a.len() == api.len());
    assert forall|i: int| 0 <= i < name.len() implies #[trigger] l[i] == ascii_lower(name[i]) by {}
    assert forall|i: int| 0 <= i < api.len() implies #[trigger] a[i] == ascii_lower(api[i]) by {}
    assert(ascii_lower('a') == 'a' && ascii_lower('w') == 'w');
    if api_match(name, api) {
        assert forall|i: int| 0 <= i < api.len() implies same_letter(
            #[trigger] name[i],
            api[i],
        ) by {
            assert(l[i] == a[i]);
            assert(l[i] == ascii_lower(name[i]));
        }
        if name.len() == api.len() + 1 {
            assert(l[api.len() as int] == ascii_lower(name.last()));
        }
    }
    if {
        &&& api.len() <= name.len() <= api.len() + 1
        &&& forall|i: int| 0 <= i < api.len() ==> same_letter(#[trigger] name[i], api[i])
        &&& name.len() == api.len() + 1 ==> (same_letter(name.last(), 'a') || same_letter(
            name.last(),
            'w',
        ))
    } {
        if name.len() == api.len() {
            assert(l =~= a);
        } else {
            assert(l =~= a.push(ascii_lower(name.last())));
        }
    }
}

/// The ANSI and the wide variant of an API are the API, in either letter case.
pub proof fn variants_match(api: Seq<char>)
    requires
        is_ascii_chars(api),
    ensures
        api_match(api.push('A'), api),
        api_match(api.push('W'), api),
        api_match(api.push('a'), api),
        api_match(api.push('w'), api),
{
    match_is_name_or_variant(api.push('A'), api);
    match_is_name_or_variant(api.push('W'), api);
    match_is_name_or_variant(api.push('a'), api);
    match_is_name_or_variant(api.push('w'), api);
}

} // verus!
