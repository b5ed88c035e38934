use farm_plugin_react_components::patterns::{any_pattern_matches, glob_match, is_selected_text};

fn names(list: &[&str]) -> Vec<String> {
    list.iter().map(|s| s.to_string()).collect()
}

#[test]
fn plain_pattern_covers_itself() {
    assert!(glob_match("Button", "Button"));
    assert!(glob_match("", ""));
    assert!(!glob_match("Button", "Buttons"));
    assert!(!glob_match("Button", "Butto"));
    assert!(!glob_match("Button", "button"));
    assert!(!glob_match("Button", ""));
    assert!(!glob_match("", "Button"));
    assert!(glob_match("a.b", "a.b"));
    assert!(!glob_match("a.b", "axb"));
}

#[test]
fn question_mark_stands_for_one_character() {
    assert!(glob_match("?", "a"));
    assert!(glob_match("?", "é"));
    assert!(!glob_match("?", ""));
    assert!(!glob_match("?", "ab"));
    assert!(glob_match("B?tton", "Button"));
    assert!(glob_match("B?tton", "B/tton"));
    assert!(!glob_match("B?tton", "Btton"));
    assert!(glob_match("???", "abc"));
    assert!(!glob_match("???", "ab"));
}

#[test]
fn star_stands_for_any_run() {
    assert!(glob_match("*", ""));
    assert!(glob_match("*", "anything/at/all"));
    assert!(glob_match("**", "x"));
    assert!(glob_match("B*", "B"));
    assert!(glob_match("B*", "Button"));
    assert!(!glob_match("B*", "aButton"));
    assert!(glob_match("*n", "Button"));
    assert!(!glob_match("*n", "Buttons"));
    assert!(glob_match("*tt*", "Button"));
    assert!(glob_match("*/components/*.tsx", "/p/src/components/forms/Field.tsx"));
    assert!(!glob_match("*/components/*.tsx", "/p/src/component/Field.tsx"));
    assert!(glob_match("a*b*c", "aXbYbZc"));
    assert!(!glob_match("a*b*c", "aXbYbZ"));
    assert!(glob_match("*a*a*a*", "banana"));
    assert!(!glob_match("*a*a*a*a*", "banana"));
    assert!(glob_match("*?", "x"));
    assert!(!glob_match("*?", ""));
    assert!(glob_match("a*?b", "axxb"));
    assert!(!glob_match("a*?b", "ab"));
}

#[test]
fn star_and_question_mark_in_the_text_are_plain() {
    assert!(glob_match("a*", "a*"));
    assert!(glob_match("a?", "a?"));
    assert!(!glob_match("ab", "a*"));
    assert!(!glob_match("ab", "a?"));
}

#[test]
fn any_of_the_patterns_may_cover() {
    let patterns = names(&["Tag", "B*", "?"]);
    assert!(any_pattern_matches(&patterns, "Tag"));
    assert!(any_pattern_matches(&patterns, "Button"));
    assert!(any_pattern_matches(&patterns, "x"));
    assert!(!any_pattern_matches(&patterns, "Input"));
    assert!(!any_pattern_matches(&patterns, ""));
    assert!(!any_pattern_matches(&vec![], "Tag"));
    assert!(!any_pattern_matches(&vec![], ""));
}

#[test]
fn selection_needs_an_included_and_no_excluded_pattern() {
    let none: Vec<String> = vec![];
    assert!(is_selected_text(&none, &none, "anything"));
    assert!(is_selected_text(&none, &none, ""));
    let wanted = names(&["*.tsx", "*.jsx"]);
    let unwanted = names(&["*/node_modules/*"]);
    assert!(is_selected_text(&wanted, &unwanted, "/project/src/Card.tsx"));
    assert!(is_selected_text(&wanted, &none, "/project/node_modules/x/Card.tsx"));
    assert!(!is_selected_text(&wanted, &unwanted, "/project/src/Card.ts"));
    assert!(!is_selected_text(&wanted, &unwanted, "/project/node_modules/x/Card.tsx"));
    assert!(!is_selected_text(&none, &unwanted, "/project/node_modules/x/Card.tsx"));
    assert!(is_selected_text(&none, &unwanted, "/project/src/Card.ts"));
}
