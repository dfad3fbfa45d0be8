use jokes_api::engine::{accepts, start_by_type, start_random, start_types, step, Action, Event, Stage};
use jokes_api::joke::{default_types, fallback_jokes, Joke};
use jokes_api::keys::{random_key, type_key, types_key};
use jokes_api::resolve::Missing;
use std::collections::HashMap;

enum Stored {
    Types(Vec<String>),
    One(Joke),
}

/// A cache and an upstream service held in memory.
struct World {
    cache: HashMap<String, Stored>,
    upstream_types: Option<Vec<String>>,
    upstream_random: Option<Joke>,
    upstream_by_category: Option<Joke>,
    fetched_category: Option<String>,
    fetches: usize,
}

enum Reply {
    Types(Vec<String>),
    One(Joke),
    Missing(Missing),
}

impl World {
    fn new() -> World {
        World {
            cache: HashMap::new(),
            upstream_types: None,
            upstream_random: None,
            upstream_by_category: None,
            fetched_category: None,
            fetches: 0,
        }
    }

    fn run(&mut self, start: (Stage, Action)) -> Reply {
        let (mut stage, mut action) = start;
        loop {
            let event = match action {
                Action::LookupTypes(key) => Event::TypesCached(match self.cache.get(&key) {
                    Some(Stored::Types(t)) => Some(t.clone()),
                    _ => None,
                }),
                Action::LookupJoke(key) => Event::JokeCached(match self.cache.get(&key) {
                    Some(Stored::One(j)) => Some(j.clone()),
                    _ => None,
                }),
                Action::FetchTypes => {
                    self.fetches += 1;
                    Event::TypesFetched(self.upstream_types.clone())
                }
                Action::FetchRandom => {
                    self.fetches += 1;
                    Event::JokeFetched(self.upstream_random.clone())
                }
                Action::FetchCategory(c) => {
                    self.fetches += 1;
                    self.fetched_category = Some(c);
                    Event::JokeFetched(self.upstream_by_category.clone())
                }
                Action::StoreTypes(key, t) => {
                    self.cache.insert(key, Stored::Types(t));
                    Event::Stored
                }
                Action::ReplyTypes(t, key) => {
                    if let Some(key) = key {
                        self.cache.insert(key, Stored::Types(t.clone()));
                    }
                    return Reply::Types(t);
                }
                Action::ReplyJoke(j, key) => {
                    if let Some(key) = key {
                        self.cache.insert(key, Stored::One(j.clone()));
                    }
                    return Reply::One(j);
                }
                Action::ReplyMissing(m) => return Reply::Missing(m),
            };
            assert!(accepts(&stage, &event));
            let next = step(stage, event);
            stage = next.0;
            action = next.1;
        }
    }
}

fn joke(r: Reply) -> Joke {
    match r {
        Reply::One(j) => j,
        _ => panic!("expected a joke"),
    }
}

fn missing(r: Reply) -> Missing {
    match r {
        Reply::Missing(m) => m,
        _ => panic!("expected no joke"),
    }
}

fn types(r: Reply) -> Vec<String> {
    match r {
        Reply::Types(t) => t,
        _ => panic!("expected a list"),
    }
}

fn strings(v: &[&str]) -> Vec<String> {
    v.iter().map(|s| s.to_string()).collect()
}

#[test]
fn unavailable_without_keyword_serves_tomato_joke() {
    let mut w = World::new();
    let j = joke(w.run(start_random(None)));
    assert_eq!(j.id, 1);
    assert_eq!(j.setup, "Why did the tomato turn red?");
    assert!(matches!(w.cache.get("joke_random_no_keyword"), Some(Stored::One(c)) if *c == j));
}

#[test]
fn unavailable_with_keyword_bugs_serves_programmer_joke() {
    let mut w = World::new();
    let j = joke(w.run(start_random(Some("bugs"))));
    assert_eq!(j.id, 2);
    assert_eq!(j.joke_type, "programming");
    assert!(w.cache.contains_key("joke_random_bugs"));
}

#[test]
fn unavailable_with_unmatched_keyword_finds_nothing() {
    let mut w = World::new();
    let m = missing(w.run(start_random(Some("zebra"))));
    assert_eq!(m, Missing::NoJoke);
    assert_eq!(m.detail(), "No joke found");
    assert!(!w.cache.contains_key("joke_random_zebra"));
}

#[test]
fn unavailable_knock_knock_salad_is_not_found() {
    let mut w = World::new();
    let m = missing(w.run(start_by_type("knock-knock", Some("salad"))));
    assert_eq!(m, Missing::NoJokeOfType);
    assert_eq!(m.detail(), "Joke type or joke not found");
    assert!(w.cache.is_empty());
}

#[test]
fn unavailable_by_type_serves_local_joke_of_category() {
    let mut w = World::new();
    let j = joke(w.run(start_by_type("knock-knock", None)));
    assert_eq!(j.id, 3);
    assert!(w.cache.contains_key("joke_type_knock-knock_no_keyword"));
    assert_eq!(w.fetched_category.as_deref(), Some("knock-knock"));
}

#[test]
fn unavailable_by_type_category_is_case_sensitive() {
    let mut w = World::new();
    let m = missing(w.run(start_by_type("General", None)));
    assert_eq!(m, Missing::NoJokeOfType);
}

#[test]
fn cache_hit_is_served_without_keyword_check() {
    let mut w = World::new();
    let seeded = Joke::new(42, "dad", "Seeded setup", "Seeded punchline");
    w.cache.insert("joke_random_bugs".to_string(), Stored::One(seeded.clone()));
    w.cache.insert("joke_type_dad_bugs".to_string(), Stored::One(seeded.clone()));
    assert_eq!(joke(w.run(start_random(Some("bugs")))), seeded);
    assert_eq!(joke(w.run(start_by_type("dad", Some("bugs")))), seeded);
    assert_eq!(w.fetches, 0);
}

#[test]
fn list_types_caches_upstream_list() {
    let mut w = World::new();
    w.upstream_types = Some(strings(&["dad", "pun"]));
    assert_eq!(types(w.run(start_types())), strings(&["dad", "pun"]));
    w.upstream_types = Some(strings(&["other"]));
    assert_eq!(types(w.run(start_types())), strings(&["dad", "pun"]));
    assert_eq!(w.fetches, 1);
    w.cache.clear();
    assert_eq!(types(w.run(start_types())), strings(&["other"]));
}

#[test]
fn list_types_caches_default_list_when_unavailable() {
    let mut w = World::new();
    let t = types(w.run(start_types()));
    assert_eq!(t, strings(&["general", "programming", "knock-knock"]));
    assert_eq!(t, default_types());
    w.upstream_types = Some(strings(&["dad"]));
    assert_eq!(types(w.run(start_types())), t);
}

#[test]
fn keyword_case_gives_same_key_and_outcome() {
    let mut upper = World::new();
    let mut lower = World::new();
    let a = joke(upper.run(start_random(Some("BUGS"))));
    let b = joke(lower.run(start_random(Some("bugs"))));
    assert_eq!(a, b);
    assert!(upper.cache.contains_key("joke_random_bugs"));
    assert!(lower.cache.contains_key("joke_random_bugs"));
    match (start_by_type("pun", Some("BUGS")).1, start_by_type("pun", Some("bugs")).1) {
        (Action::LookupJoke(x), Action::LookupJoke(y)) => assert_eq!(x, y),
        _ => panic!("expected cache lookups"),
    }
}

#[test]
fn keyword_naming_category_fetches_that_category() {
    let mut w = World::new();
    w.upstream_types = Some(strings(&["dad", "pun"]));
    w.upstream_by_category = Some(Joke::new(7, "pun", "A pun setup", "A pun punchline"));
    let j = joke(w.run(start_random(Some("pun"))));
    assert_eq!(j.id, 7);
    assert_eq!(w.fetched_category.as_deref(), Some("pun"));
    assert!(matches!(w.cache.get("joke_types"), Some(Stored::Types(t)) if *t == strings(&["dad", "pun"])));
}

#[test]
fn keyword_not_a_category_fetches_any_and_filters() {
    let mut w = World::new();
    w.upstream_types = Some(strings(&["dad", "pun"]));
    w.upstream_random = Some(Joke::new(8, "general", "Why is the sky blue?", "It just is."));
    assert_eq!(joke(w.run(start_random(Some("sky")))).id, 8);
    assert!(w.fetched_category.is_none());
    let m = missing(w.run(start_random(Some("ocean"))));
    assert_eq!(m, Missing::KeywordMismatch);
    assert_eq!(m.detail(), "No joke found with keyword");
    assert!(!w.cache.contains_key("joke_random_ocean"));
}

#[test]
fn fresh_joke_of_category_is_filtered_by_keyword() {
    let mut w = World::new();
    w.upstream_by_category = Some(Joke::new(9, "dad", "I'm hungry", "Hi hungry, I'm dad"));
    assert_eq!(missing(w.run(start_by_type("dad", Some("cheese")))), Missing::KeywordMismatch);
    assert!(w.cache.is_empty());
    assert_eq!(joke(w.run(start_by_type("dad", Some("HUNGRY")))).id, 9);
    assert!(w.cache.contains_key("joke_type_dad_hungry"));
}

#[test]
fn cache_keys_are_spelled_as_documented() {
    assert_eq!(types_key(), "joke_types");
    assert_eq!(random_key(&None), "joke_random_no_keyword");
    assert_eq!(random_key(&Some("bugs".to_string())), "joke_random_bugs");
    assert_eq!(type_key("pun", &None), "joke_type_pun_no_keyword");
    assert_eq!(type_key("pun", &Some("x".to_string())), "joke_type_pun_x");
    assert_ne!(type_key("pun", &Some("a".to_string())), type_key("pun", &Some("b".to_string())));
}

#[test]
fn fallback_dataset_is_in_declared_order() {
    let jokes = fallback_jokes();
    let ids: Vec<i32> = jokes.iter().map(|j| j.id).collect();
    assert_eq!(ids, vec![1, 2, 3]);
    assert_eq!(jokes[0].punchline, "Because it saw the salad dressing!");
    assert_eq!(jokes[2].joke_type, "knock-knock");
}

#[test]
fn cache_entries_live_five_minutes() {
    assert_eq!(jokes_api::keys::CACHE_TTL_SECONDS, 300);
}

#[test]
fn duplicate_keeps_every_field() {
    let j = Joke::new(4, "pun", "s", "p");
    assert_eq!(j.duplicate(), j);
}
