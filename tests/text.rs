use jokes_api::joke::Joke;
use jokes_api::resolve::{fallback_search, names_category, resolve_random, types_or_default};
use jokes_api::text::{contains_text, joke_matches, normalize_keyword, same_text, searchable_text};

#[test]
fn contains_text_finds_runs() {
    assert!(contains_text("the light attracts bugs.", "bugs"));
    assert!(contains_text("abc", ""));
    assert!(contains_text("", ""));
    assert!(!contains_text("", "a"));
    assert!(!contains_text("bug", "bugs"));
    assert!(contains_text("aab", "ab"));
    assert!(!contains_text("a b", "ab"));
}

#[test]
fn same_text_compares_characters() {
    assert!(same_text("pun", "pun"));
    assert!(!same_text("pun", "Pun"));
    assert!(!same_text("pun", "puns"));
}

#[test]
fn searchable_text_joins_and_lowercases() {
    let j = Joke::new(5, "Dad", "Hello There", "General KENOBI");
    assert_eq!(searchable_text(&j), "dad hello there general kenobi");
    assert!(joke_matches(&j, "o t"));
    assert!(!joke_matches(&j, "Hello"));
}

#[test]
fn keyword_is_lowercased() {
    assert_eq!(normalize_keyword(Some("BuGs")), Some("bugs".to_string()));
    assert_eq!(normalize_keyword(None), None);
}

#[test]
fn names_category_is_exact() {
    let t = vec!["dad".to_string(), "pun".to_string()];
    assert!(names_category(&t, "pun"));
    assert!(!names_category(&t, "Pun"));
    assert!(!names_category(&Vec::new(), "pun"));
}

#[test]
fn fallback_search_respects_category_and_keyword() {
    assert_eq!(fallback_search(None, &None).map(|j| j.id), Some(1));
    assert_eq!(fallback_search(None, &Some("boo".to_string())).map(|j| j.id), Some(3));
    assert_eq!(fallback_search(Some("programming"), &None).map(|j| j.id), Some(2));
    assert_eq!(fallback_search(Some("programming"), &Some("salad".to_string())), None);
    assert_eq!(fallback_search(Some("unknown"), &None), None);
    // the category itself is part of the searched text
    assert_eq!(fallback_search(None, &Some("knock-knock".to_string())).map(|j| j.id), Some(3));
}

#[test]
fn fetched_joke_without_keyword_is_served() {
    let j = Joke::new(11, "x", "y", "z");
    assert_eq!(resolve_random(&None, Some(j.clone())), Ok(j));
}

#[test]
fn types_or_default_prefers_upstream() {
    assert_eq!(types_or_default(Some(vec![])), Vec::<String>::new());
    assert_eq!(types_or_default(None).len(), 3);
}
