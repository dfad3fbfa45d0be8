use vstd::prelude::*;
use vstd::string::*;
use crate::joke::{default_types, default_types_view, fallback_jokes, fallback_view, Joke, JokeView};
use crate::text::{joke_matches, matches_keyword, same_text};
use crate::keys::opt_view;

verus! {

/// Why no joke is served.
#[derive(PartialEq, Eq, Structural, Clone, Copy, Debug)]
pub enum Missing {
    /// The joke just fetched does not contain the keyword.
    KeywordMismatch,
    /// No joke of the local dataset contains the keyword.
    NoJoke,
    /// No joke of the local dataset has the category and the keyword.
    NoJokeOfType,
}

pub open spec fn detail_view(m: Missing) -> Seq<char> {
    match m {
        Missing::KeywordMismatch => "No joke found with keyword"@,
        Missing::NoJoke => "No joke found"@,
        Missing::NoJokeOfType => "Joke type or joke not found"@,
    }
}

impl Missing {
    /// The message that the reply carries.
    pub fn detail(&self) -> (r: String)
        ensures
            r@ == detail_view(*self),
    {
        match self {
            Missing::KeywordMismatch => "No joke found with keyword".to_owned(),
            Missing::NoJoke => "No joke found".to_owned(),
            Missing::NoJokeOfType => "Joke type or joke not found".to_owned(),
        }
    }
}

pub open spec fn opt_joke_view(j: Option<Joke>) -> Option<JokeView> {
    match j {
        Some(j) => Some(j@),
        None => None,
    }
}

pub open spec fn opt_types_view(t: Option<Vec<String>>) -> Option<Seq<Seq<char>>> {
    match t {
        Some(t) => Some(t.deep_view()),
        None => None,
    }
}

/// The category list served: the upstream one, or the defaults when the
/// upstream service was unavailable.
pub open spec fn types_choice(fetched: Option<Seq<Seq<char>>>) -> Seq<Seq<char>> {
    match fetched {
        Some(t) => t,
        None => default_types_view(),
    }
}

pub fn types_or_default(fetched: Option<Vec<String>>) -> (r: Vec<String>)
    ensures
        r.deep_view() == types_choice(opt_types_view(fetched)),
{
    match fetched {
        Some(t) => t,
        None => default_types(),
    }
}

/// Whether a keyword names one of the categories, compared exactly.
pub fn names_category(types: &Vec<String>, keyword: &str) -> (r: bool)
    ensures
        r == types.deep_view().contains(keyword@),
{
    let mut i: usize = 0;
    while i < types.len()
        invariant
            i <= types.len(),
            forall|k: int| 0 <= k < i ==> types.deep_view()[k] != keyword@,
        decreases types.len() - i,
    {
        if same_text(types[i].as_str(), keyword) {
            assert(types.deep_view()[i as int] == keyword@);
            return true;
        }
        i = i + 1;
    }
    false
}

/// A joke of the local dataset qualifies when it has the category (if one is
/// asked for) and contains the keyword (if one is given).
pub open spec fn eligible(j: JokeView, category: Option<Seq<char>>, keyword: Option<Seq<char>>) -> bool {
    (match category {
        Some(c) => j.category == c,
        None => true,
    }) && (match keyword {
        Some(k) => matches_keyword(j, k),
        None => true,
    })
}

/// The first qualifying joke of `s` from position `i` on.
pub open spec fn first_eligible(
    s: Seq<JokeView>,
    i: int,
    category: Option<Seq<char>>,
    keyword: Option<Seq<char>>,
) -> Option<JokeView>
    decreases s.len() - i,
{
    if 0 <= i < s.len() {
        if eligible(s[i], category, keyword) {
            Some(s[i])
        } else {
            first_eligible(s, i + 1, category, keyword)
        }
    } else {
        None
    }
}

pub open spec fn opt_str_view(s: Option<&str>) -> Option<Seq<char>> {
    match s {
        Some(s) => Some(s@),
        None => None,
    }
}

/// The first joke of the local dataset, in its fixed order, that qualifies.
pub fn fallback_search(category: Option<&str>, keyword: &Option<String>) -> (r: Option<Joke>)
    ensures
        opt_joke_view(r) == first_eligible(
            fallback_view(),
            0,
            opt_str_view(category),
            opt_view(*keyword),
        ),
{
    let ghost cat = opt_str_view(category);
    let jokes = fallback_jokes();
    let mut i: usize = 0;
    while i < jokes.len()
        invariant
            i <= jokes@.len(),
            jokes@.len() == fallback_view().len(),
            cat == opt_str_view(category),
            forall|k: int| 0 <= k < jokes@.len() ==> #[trigger] jokes@[k]@ == fallback_view()[k],
            first_eligible(fallback_view(), 0, cat, opt_view(*keyword)) == first_eligible(
                fallback_view(),
                i as int,
                cat,
                opt_view(*keyword),
            ),
        decreases jokes.len() - i,
    {
        let j = &jokes[i];
        assert(j@ == fallback_view()[i as int]);
        let cat_ok = match category {
            Some(c) => same_text(j.joke_type.as_str(), c),
            None => true,
        };
        let kw_ok = match keyword {
            Some(k) => joke_matches(j, k.as_str()),
            None => true,
        };
        assert((cat_ok && kw_ok) == eligible(fallback_view()[i as int], cat, opt_view(*keyword)));
        assert(first_eligible(fallback_view(), i as int, cat, opt_view(*keyword)) == if eligible(
            fallback_view()[i as int],
            cat,
            opt_view(*keyword),
        ) {
            Some(fallback_view()[i as int])
        } else {
            first_eligible(fallback_view(), i + 1, cat, opt_view(*keyword))
        });
        if cat_ok && kw_ok {
            let found = j.duplicate();
            assert(found@ == fallback_view()[i as int]);
            return Some(found);
        }
        i = i + 1;
    }
    None
}

/// What a random-joke request resolves to once the upstream call is done:
/// the fetched joke if it contains the keyword; otherwise a mismatch; and
/// when upstream was unavailable, the first local joke with the keyword.
pub open spec fn random_result(keyword: Option<Seq<char>>, fetched: Option<JokeView>) -> Result<JokeView, Missing> {
    match fetched {
        Some(j) => if eligible(j, None, keyword) {
            Ok(j)
        } else {
            Err(Missing::KeywordMismatch)
        },
        None => match first_eligible(fallback_view(), 0, None, keyword) {
            Some(j) => Ok(j),
            None => Err(Missing::NoJoke),
        },
    }
}

/// What a request for a joke of a category resolves to once the upstream
/// call is done; locally only jokes of that category qualify.
pub open spec fn by_type_result(
    category: Seq<char>,
    keyword: Option<Seq<char>>,
    fetched: Option<JokeView>,
) -> Result<JokeView, Missing> {
    match fetched {
        Some(j) => if eligible(j, None, keyword) {
            Ok(j)
        } else {
            Err(Missing::KeywordMismatch)
        },
        None => match first_eligible(fallback_view(), 0, Some(category), keyword) {
            Some(j) => Ok(j),
            None => Err(Missing::NoJokeOfType),
        },
    }
}

pub open spec fn result_view(r: Result<Joke, Missing>) -> Result<JokeView, Missing> {
    match r {
        Ok(j) => Ok(j@),
        Err(m) => Err(m),
    }
}

fn keyword_ok(j: &Joke, keyword: &Option<String>) -> (r: bool)
    ensures
        r == eligible(j@, None, opt_view(*keyword)),
{
    match keyword {
        Some(k) => joke_matches(j, k.as_str()),
        None => true,
    }
}

pub fn resolve_random(keyword: &Option<String>, fetched: Option<Joke>) -> (r: Result<Joke, Missing>)
    ensures
        result_view(r) == random_result(opt_view(*keyword), opt_joke_view(fetched)),
{
    match fetched {
        Some(j) => {
            if keyword_ok(&j, keyword) {
                Ok(j)
            } else {
                Err(Missing::KeywordMismatch)
            }
        },
        None => match fallback_search(None, keyword) {
            Some(j) => Ok(j),
            None => Err(Missing::NoJoke),
        },
    }
}

pub fn resolve_by_type(category: &str, keyword: &Option<String>, fetched: Option<Joke>) -> (r: Result<Joke, Missing>)
    ensures
        result_view(r) == by_type_result(category@, opt_view(*keyword), opt_joke_view(fetched)),
{
    match fetched {
        Some(j) => {
            if keyword_ok(&j, keyword) {
                Ok(j)
            } else {
                Err(Missing::KeywordMismatch)
            }
        },
        None => match fallback_search(Some(category), keyword) {
            Some(j) => Ok(j),
            None => Err(Missing::NoJokeOfType),
        },
    }
}

} // verus!
