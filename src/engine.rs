use vstd::prelude::*;
use crate::joke::Joke;
use crate::keys::{opt_view, random_key, random_key_view, type_key, type_key_view, types_key, types_key_view};
use crate::resolve::{
    by_type_result, names_category, opt_joke_view, opt_types_view, resolve_by_type, resolve_random,
    random_result, result_view, types_choice, types_or_default, Missing,
};
use crate::text::{normalize_keyword, lower_of};

verus! {

/// Where a request stands in its pipeline. Keywords held here are already
/// lower-cased.
pub enum Stage {
    /// Listing categories: waiting for the cache.
    TypesLookup,
    /// Listing categories: waiting for upstream.
    TypesFetch,
    /// Random joke: waiting for the cache.
    RandomLookup(Option<String>),
    /// Random joke with a keyword: waiting for the cached category list.
    RandomTypesLookup(String),
    /// Random joke with a keyword: waiting for the upstream category list.
    RandomTypesFetch(String),
    /// Random joke with a keyword: waiting for the category list to be
    /// stored; the flag says whether the keyword is a category.
    RandomTypesStore(String, bool),
    /// Random joke: waiting for upstream.
    RandomFetch(Option<String>),
    /// Joke of a category: waiting for the cache.
    ByTypeLookup(String, Option<String>),
    /// Joke of a category: waiting for upstream.
    ByTypeFetch(String, Option<String>),
    /// The reply has been decided.
    Done,
}

/// What the outside world reports back to the pipeline.
pub enum Event {
    /// The category list read from the cache, if any could be read.
    TypesCached(Option<Vec<String>>),
    /// The joke read from the cache, if any could be read.
    JokeCached(Option<Joke>),
    /// The category list from upstream; `None` when it was unavailable.
    TypesFetched(Option<Vec<String>>),
    /// The joke from upstream; `None` when it was unavailable.
    JokeFetched(Option<Joke>),
    /// A cache write was attempted; its outcome does not matter.
    Stored,
}

/// What the pipeline asks the outside world to do next.
pub enum Action {
    /// Read a category list from the cache under this key.
    LookupTypes(String),
    /// Read a joke from the cache under this key.
    LookupJoke(String),
    /// Ask upstream for its categories.
    FetchTypes,
    /// Ask upstream for a joke of any category.
    FetchRandom,
    /// Ask upstream for a joke of this category.
    FetchCategory(String),
    /// Store a category list under this key, then report `Stored`.
    StoreTypes(String, Vec<String>),
    /// Store the list under the key, if one is given, and reply with it.
    ReplyTypes(Vec<String>, Option<String>),
    /// Store the joke under the key, if one is given, and reply with it.
    ReplyJoke(Joke, Option<String>),
    /// Reply that no joke was found, for this reason.
    ReplyMissing(Missing),
}

/// The events that a stage waits for.
pub open spec fn expects(stage: Stage, event: Event) -> bool {
    match stage {
        Stage::TypesLookup => event is TypesCached,
        Stage::TypesFetch => event is TypesFetched,
        Stage::RandomLookup(_) => event is JokeCached,
        Stage::RandomTypesLookup(_) => event is TypesCached,
        Stage::RandomTypesFetch(_) => event is TypesFetched,
        Stage::RandomTypesStore(_, _) => event is Stored,
        Stage::RandomFetch(_) => event is JokeFetched,
        Stage::ByTypeLookup(_, _) => event is JokeCached,
        Stage::ByTypeFetch(_, _) => event is JokeFetched,
        Stage::Done => false,
    }
}

/// Whether `stage` waits for `event`.
pub fn accepts(stage: &Stage, event: &Event) -> (r: bool)
    ensures
        r == expects(*stage, *event),
{
    match stage {
        Stage::TypesLookup => matches!(event, Event::TypesCached(_)),
        Stage::TypesFetch => matches!(event, Event::TypesFetched(_)),
        Stage::RandomLookup(_) => matches!(event, Event::JokeCached(_)),
        Stage::RandomTypesLookup(_) => matches!(event, Event::TypesCached(_)),
        Stage::RandomTypesFetch(_) => matches!(event, Event::TypesFetched(_)),
        Stage::RandomTypesStore(_, _) => matches!(event, Event::Stored),
        Stage::RandomFetch(_) => matches!(event, Event::JokeFetched(_)),
        Stage::ByTypeLookup(_, _) => matches!(event, Event::JokeCached(_)),
        Stage::ByTypeFetch(_, _) => matches!(event, Event::JokeFetched(_)),
        Stage::Done => false,
    }
}

/// The action replies with this joke and, if `key` is given, stores it under
/// that key first.
pub open spec fn replies_joke(a: Action, j: crate::joke::JokeView, key: Option<Seq<char>>) -> bool {
    &&& a is ReplyJoke
    &&& a->ReplyJoke_0@ == j
    &&& opt_view(a->ReplyJoke_1) == key
}

/// The action replies with this list and, if `key` is given, stores it under
/// that key first.
pub open spec fn replies_types(a: Action, t: Seq<Seq<char>>, key: Option<Seq<char>>) -> bool {
    &&& a is ReplyTypes
    &&& a->ReplyTypes_0.deep_view() == t
    &&& opt_view(a->ReplyTypes_1) == key
}

/// The reply that a resolved joke request gives, stored under `key` when it
/// is a joke.
pub open spec fn replies_result(a: Action, r: Result<crate::joke::JokeView, Missing>, key: Seq<char>) -> bool {
    match r {
        Ok(j) => replies_joke(a, j, Some(key)),
        Err(m) => a == Action::ReplyMissing(m),
    }
}

/// The action that fetches a joke for a keyword: by category when the
/// keyword names one, else of any category.
pub open spec fn fetches_for(a: Action, keyword: Seq<char>, by_category: bool) -> bool {
    if by_category {
        a is FetchCategory && a->FetchCategory_0@ == keyword
    } else {
        a is FetchRandom
    }
}

/// The start of a request for the category list: look in the cache.
pub fn start_types() -> (r: (Stage, Action))
    ensures
        r.0 is TypesLookup,
        r.1 is LookupTypes && r.1->LookupTypes_0@ == types_key_view(),
{
    (Stage::TypesLookup, Action::LookupTypes(types_key()))
}

/// The start of a request for a random joke: lower-case the keyword and look
/// in the cache under the key it gives.
pub fn start_random(keyword: Option<&str>) -> (r: (Stage, Action))
    ensures
        r.0 is RandomLookup,
        keyword is None ==> r.0->RandomLookup_0 is None,
        keyword is Some ==> r.0->RandomLookup_0 is Some && r.0->RandomLookup_0.unwrap()@ == lower_of(
            keyword.unwrap()@,
        ),
        r.1 is LookupJoke && r.1->LookupJoke_0@ == random_key_view(opt_view(r.0->RandomLookup_0)),
{
    let kw = normalize_keyword(keyword);
    let key = random_key(&kw);
    (Stage::RandomLookup(kw), Action::LookupJoke(key))
}

/// The start of a request for a joke of a category: lower-case the keyword
/// and look in the cache under the key that category and keyword give.
pub fn start_by_type(category: &str, keyword: Option<&str>) -> (r: (Stage, Action))
    ensures
        r.0 is ByTypeLookup,
        r.0->ByTypeLookup_0@ == category@,
        keyword is None ==> r.0->ByTypeLookup_1 is None,
        keyword is Some ==> r.0->ByTypeLookup_1 is Some && r.0->ByTypeLookup_1.unwrap()@ == lower_of(
            keyword.unwrap()@,
        ),
        r.1 is LookupJoke && r.1->LookupJoke_0@ == type_key_view(category@, opt_view(r.0->ByTypeLookup_1)),
{
    let kw = normalize_keyword(keyword);
    let key = type_key(category, &kw);
    (Stage::ByTypeLookup(category.to_owned(), kw), Action::LookupJoke(key))
}

/// Advances a request by one event: decides the next stage and what the
/// outside world is to do. A cache hit is served as it stands, without the
/// keyword being checked again; a fresh joke is served only if it contains
/// the keyword, and is then stored; when upstream is unavailable the local
/// dataset is searched; the category list served after a miss is stored,
/// the default list included.
pub fn step(stage: Stage, event: Event) -> (r: (Stage, Action))
    requires
        expects(stage, event),
    ensures
        // category list
        stage is TypesLookup && event->TypesCached_0 is Some ==> r.0 is Done && replies_types(
            r.1,
            event->TypesCached_0.unwrap().deep_view(),
            None,
        ),
        stage is TypesLookup && event->TypesCached_0 is None ==> r.0 is TypesFetch && r.1 is FetchTypes,
        stage is TypesFetch ==> r.0 is Done && replies_types(
            r.1,
            types_choice(opt_types_view(event->TypesFetched_0)),
            Some(types_key_view()),
        ),
        // random joke
        stage is RandomLookup && event->JokeCached_0 is Some ==> r.0 is Done && replies_joke(
            r.1,
            event->JokeCached_0.unwrap()@,
            None,
        ),
        stage is RandomLookup && event->JokeCached_0 is None && stage->RandomLookup_0 is None
            ==> r.0 == Stage::RandomFetch(None) && r.1 is FetchRandom,
        stage is RandomLookup && event->JokeCached_0 is None && stage->RandomLookup_0 is Some
            ==> r.0 == Stage::RandomTypesLookup(stage->RandomLookup_0.unwrap()) && r.1 is LookupTypes
            && r.1->LookupTypes_0@ == types_key_view(),
        stage is RandomTypesLookup && event->TypesCached_0 is Some ==> r.0 == Stage::RandomFetch(
            Some(stage->RandomTypesLookup_0),
        ) && fetches_for(
            r.1,
            stage->RandomTypesLookup_0@,
            event->TypesCached_0.unwrap().deep_view().contains(stage->RandomTypesLookup_0@),
        ),
        stage is RandomTypesLookup && event->TypesCached_0 is None ==> r.0 == Stage::RandomTypesFetch(
            stage->RandomTypesLookup_0,
        ) && r.1 is FetchTypes,
        stage is RandomTypesFetch ==> r.0 == Stage::RandomTypesStore(
            stage->RandomTypesFetch_0,
            types_choice(opt_types_view(event->TypesFetched_0)).contains(stage->RandomTypesFetch_0@),
        ) && r.1 is StoreTypes && r.1->StoreTypes_0@ == types_key_view() && r.1->StoreTypes_1.deep_view()
            == types_choice(opt_types_view(event->TypesFetched_0)),
        stage is RandomTypesStore ==> r.0 == Stage::RandomFetch(Some(stage->RandomTypesStore_0))
            && fetches_for(r.1, stage->RandomTypesStore_0@, stage->RandomTypesStore_1),
        stage is RandomFetch ==> r.0 is Done && replies_result(
            r.1,
            random_result(opt_view(stage->RandomFetch_0), opt_joke_view(event->JokeFetched_0)),
            random_key_view(opt_view(stage->RandomFetch_0)),
        ),
        // joke of a category
        stage is ByTypeLookup && event->JokeCached_0 is Some ==> r.0 is Done && replies_joke(
            r.1,
            event->JokeCached_0.unwrap()@,
            None,
        ),
        stage is ByTypeLookup && event->JokeCached_0 is None ==> r.0 == Stage::ByTypeFetch(
            stage->ByTypeLookup_0,
            stage->ByTypeLookup_1,
        ) && r.1 == Action::FetchCategory(stage->ByTypeLookup_0),
        stage is ByTypeFetch ==> r.0 is Done && replies_result(
            r.1,
            by_type_result(
                stage->ByTypeFetch_0@,
                opt_view(stage->ByTypeFetch_1),
                opt_joke_view(event->JokeFetched_0),
            ),
            type_key_view(stage->ByTypeFetch_0@, opt_view(stage->ByTypeFetch_1)),
        ),
{
    match (stage, event) {
        (Stage::TypesLookup, Event::TypesCached(Some(t))) => (Stage::Done, Action::ReplyTypes(t, None)),
        (Stage::TypesLookup, _) => (Stage::TypesFetch, Action::FetchTypes),
        (Stage::TypesFetch, Event::TypesFetched(f)) => {
            let t = types_or_default(f);
            (Stage::Done, Action::ReplyTypes(t, Some(types_key())))
        },
        (Stage::RandomLookup(_), Event::JokeCached(Some(j))) => (Stage::Done, Action::ReplyJoke(j, None)),
        (Stage::RandomLookup(None), _) => (Stage::RandomFetch(None), Action::FetchRandom),
        (Stage::RandomLookup(Some(k)), _) => (Stage::RandomTypesLookup(k), Action::LookupTypes(types_key())),
        (Stage::RandomTypesLookup(k), Event::TypesCached(Some(t))) => {
            let by_category = names_category(&t, k.as_str());
            fetch_for(k, by_category)
        },
        (Stage::RandomTypesLookup(k), _) => (Stage::RandomTypesFetch(k), Action::FetchTypes),
        (Stage::RandomTypesFetch(k), Event::TypesFetched(f)) => {
            let t = types_or_default(f);
            let by_category = names_category(&t, k.as_str());
            (Stage::RandomTypesStore(k, by_category), Action::StoreTypes(types_key(), t))
        },
        (Stage::RandomTypesStore(k, by_category), _) => fetch_for(k, by_category),
        (Stage::RandomFetch(kw), Event::JokeFetched(f)) => {
            let key = random_key(&kw);
            (Stage::Done, reply_for(resolve_random(&kw, f), key))
        },
        (Stage::ByTypeLookup(_, _), Event::JokeCached(Some(j))) => (Stage::Done, Action::ReplyJoke(j, None)),
        (Stage::ByTypeLookup(c, kw), _) => {
            let fetch = Action::FetchCategory(c.clone());
            (Stage::ByTypeFetch(c, kw), fetch)
        },
        (Stage::ByTypeFetch(c, kw), Event::JokeFetched(f)) => {
            let key = type_key(c.as_str(), &kw);
            (Stage::Done, reply_for(resolve_by_type(c.as_str(), &kw, f), key))
        },
        // every other pair is ruled out by `expects`
        (_, _) => (Stage::Done, Action::ReplyMissing(Missing::NoJoke)),
    }
}

fn fetch_for(keyword: String, by_category: bool) -> (r: (Stage, Action))
    ensures
        r.0 == Stage::RandomFetch(Some(keyword)),
        fetches_for(r.1, keyword@, by_category),
{
    if by_category {
        let fetch = Action::FetchCategory(keyword.clone());
        (Stage::RandomFetch(Some(keyword)), fetch)
    } else {
        (Stage::RandomFetch(Some(keyword)), Action::FetchRandom)
    }
}

fn reply_for(r: Result<Joke, Missing>, key: String) -> (a: Action)
    ensures
        replies_result(a, result_view(r), key@),
{
    match r {
        Ok(j) => Action::ReplyJoke(j, Some(key)),
        Err(m) => Action::ReplyMissing(m),
    }
}

} // verus!
