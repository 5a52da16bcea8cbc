use axumortem_engine::matching::{first_matching, lowered_matches, names_api};
use axumortem_engine::text::{contains, decimal_text, sorted_unique, stands_before};

fn owned(texts: &[&str]) -> Vec<String> {
    texts.iter().map(|s| s.to_string()).collect()
}

#[test]
fn lowered_names_compare_with_suffix() {
    let api = "open".to_string();
    assert!(lowered_matches(&"open".to_string(), &api));
    assert!(lowered_matches(&"opena".to_string(), &api));
    assert!(lowered_matches(&"openw".to_string(), &api));
    assert!(!lowered_matches(&"openx".to_string(), &api));
    assert!(!lowered_matches(&"Open".to_string(), &api));
    assert!(names_api("OpenW", "oPEN"));
}

#[test]
fn first_matching_name() {
    let names = owned(&["reopen", "OPENa", "open"]);
    assert_eq!(first_matching(&names, &["open"]), Some("OPENa".to_string()));
    assert_eq!(first_matching(&names, &["close"]), None);
}

#[test]
fn substring_search_agrees_with_std() {
    let texts = ["", "a", "ab", "aab", "abab", "ba", "äa", "ä", "aä€", "€"];
    for h in texts {
        for n in texts {
            assert_eq!(contains(h, n), h.contains(n), "{:?} {:?}", h, n);
        }
    }
}

#[test]
fn decimal_agrees_with_std() {
    for n in [0usize, 1, 9, 10, 24, 99, 100, 1205, usize::MAX] {
        assert_eq!(decimal_text(n), n.to_string());
    }
}

#[test]
fn order_agrees_with_std() {
    let texts = ["", "a", "ab", "abc", "b", "anti-debug", "anti", "Z", "ä", "\u{ffff}", "\u{10000}"];
    for a in texts {
        for b in texts {
            assert_eq!(stands_before(a, b), a < b, "{:?} {:?}", a, b);
        }
    }
}

#[test]
fn sorting_drops_duplicates() {
    let mut expected = owned(&["b", "a", "b", "c", "a", "", "ab"]);
    let r = sorted_unique(&expected);
    expected.sort();
    expected.dedup();
    assert_eq!(r, expected);
    assert!(sorted_unique(&Vec::new()).is_empty());
}
