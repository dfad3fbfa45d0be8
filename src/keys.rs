use vstd::prelude::*;
use vstd::string::*;

verus! {

/// How long, in seconds, a cache entry lives, whatever its use.
pub const CACHE_TTL_SECONDS: u64 = 300;

/// What stands in a cache key for the keyword; an absent keyword is spelled
/// `no_keyword`.
pub open spec fn keyword_token(keyword: Option<Seq<char>>) -> Seq<char> {
    match keyword {
        Some(k) => k,
        None => "no_keyword"@,
    }
}

pub open spec fn opt_view(keyword: Option<String>) -> Option<Seq<char>> {
    match keyword {
        Some(k) => Some(k@),
        None => None,
    }
}

pub open spec fn types_key_view() -> Seq<char> {
    "joke_types"@
}

pub open spec fn random_key_view(keyword: Option<Seq<char>>) -> Seq<char> {
    "joke_random_"@ + keyword_token(keyword)
}

pub open spec fn type_key_view(category: Seq<char>, keyword: Option<Seq<char>>) -> Seq<char> {
    "joke_type_"@ + category + "_"@ + keyword_token(keyword)
}

/// The cache key of the category list.
pub fn types_key() -> (r: String)
    ensures
        r@ == types_key_view(),
{
    "joke_types".to_owned()
}

fn token_into(s: &mut String, keyword: &Option<String>)
    ensures
        final(s)@ == old(s)@ + keyword_token(opt_view(*keyword)),
{
    match keyword {
        Some(k) => s.append(k.as_str()),
        None => s.append("no_keyword"),
    }
}

/// The cache key of a random joke for a normalized keyword.
pub fn random_key(keyword: &Option<String>) -> (r: String)
    ensures
        r@ == random_key_view(opt_view(*keyword)),
{
    let mut s = "joke_random_".to_owned();
    token_into(&mut s, keyword);
    s
}

/// The cache key of a joke of a given category for a normalized keyword.
pub fn type_key(category: &str, keyword: &Option<String>) -> (r: String)
    ensures
        r@ == type_key_view(category@, opt_view(*keyword)),
{
    let mut s = "joke_type_".to_owned();
    s.append(category);
    s.append("_");
    token_into(&mut s, keyword);
    s
}

proof fn lemma_suffix_equal(p: Seq<char>, a: Seq<char>, b: Seq<char>)
    requires
        p + a == p + b,
    ensures
        a == b,
{
    assert(a =~= (p + a).subrange(p.len() as int, (p + a).len() as int));
    assert(b =~= (p + b).subrange(p.len() as int, (p + b).len() as int));
}

/// Two distinct keywords never share a cache key, for jokes of one category
/// and for random jokes alike; nor does a keyword share one with the absent
/// keyword, unless it is the spelling of the absent keyword itself.
pub proof fn lemma_keys_distinct(category: Seq<char>, k1: Option<Seq<char>>, k2: Option<Seq<char>>)
    requires
        k1 != k2,
        k1 != Some("no_keyword"@),
        k2 != Some("no_keyword"@),
    ensures
        type_key_view(category, k1) != type_key_view(category, k2),
        random_key_view(k1) != random_key_view(k2),
{
    if type_key_view(category, k1) == type_key_view(category, k2) {
        assert(type_key_view(category, k1) =~= ("joke_type_"@ + category + "_"@) + keyword_token(k1));
        assert(type_key_view(category, k2) =~= ("joke_type_"@ + category + "_"@) + keyword_token(k2));
        lemma_suffix_equal("joke_type_"@ + category + "_"@, keyword_token(k1), keyword_token(k2));
    }
    if random_key_view(k1) == random_key_view(k2) {
        lemma_suffix_equal("joke_random_"@, keyword_token(k1), keyword_token(k2));
    }
}

} // verus!
