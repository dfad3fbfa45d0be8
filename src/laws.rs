use vstd::prelude::*;
use crate::joke::{fallback_view, JokeView};
use crate::keys::{random_key_view, type_key_view};
use crate::resolve::{by_type_result, random_result};
use crate::text::{lower_of, normalized};

verus! {

/// With upstream unavailable and no keyword, a random joke is the first joke
/// of the local dataset.
pub proof fn lemma_unavailable_without_keyword()
    ensures
        random_result(None, None) == Ok::<JokeView, crate::resolve::Missing>(fallback_view()[0]),
{
}

/// Keywords that lower-case to the same text are the same request: they give
/// the same cache keys and resolve to the same outcome, whatever upstream
/// returned.
pub proof fn lemma_keyword_case_insensitive(
    category: Seq<char>,
    k1: Seq<char>,
    k2: Seq<char>,
    fetched: Option<JokeView>,
)
    requires
        lower_of(k1) == lower_of(k2),
    ensures
        random_key_view(normalized(Some(k1))) == random_key_view(normalized(Some(k2))),
        type_key_view(category, normalized(Some(k1))) == type_key_view(category, normalized(Some(k2))),
        random_result(normalized(Some(k1)), fetched) == random_result(normalized(Some(k2)), fetched),
        by_type_result(category, normalized(Some(k1)), fetched) == by_type_result(
            category,
            normalized(Some(k2)),
            fetched,
        ),
{
}

} // verus!
