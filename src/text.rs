use vstd::prelude::*;
use vstd::string::*;
use crate::joke::{Joke, JokeView};

verus! {

/// What `str::to_lowercase` makes of a text.
pub uninterp spec fn lower_of(s: Seq<char>) -> Seq<char>;

/// Relies on `str::to_lowercase`: the result depends on the characters alone.
#[verifier::external_body]
pub(crate) fn lowercase(s: &str) -> (r: String)
    ensures
        r@ == lower_of(s@),
{
    s.to_lowercase()
}

/// `n` occurs in `h` starting at position `i`.
pub open spec fn occurs_at(h: Seq<char>, n: Seq<char>, i: int) -> bool {
    0 <= i && i + n.len() <= h.len() && h.subrange(i, i + n.len()) == n
}

pub open spec fn contains_seq(h: Seq<char>, n: Seq<char>) -> bool {
    exists|i: int| occurs_at(h, n, i)
}

/// Whether `needle` occurs in `hay` as a run of characters.
pub fn contains_text(hay: &str, needle: &str) -> (r: bool)
    ensures
        r == contains_seq(hay@, needle@),
{
    let hl = hay.unicode_len();
    let nl = needle.unicode_len();
    if nl > hl {
        return false;
    }
    let mut i: usize = 0;
    while i <= hl - nl
        invariant
            hl == hay@.len(),
            nl == needle@.len(),
            nl <= hl,
            i <= hl - nl + 1,
            forall|k: int| 0 <= k < i ==> !occurs_at(hay@, needle@, k),
        decreases hl - nl + 1 - i,
    {
        let mut j: usize = 0;
        let mut same = true;
        while j < nl && same
            invariant
                hl == hay@.len(),
                nl == needle@.len(),
                i + nl <= hl,
                j <= nl,
                same ==> forall|m: int| 0 <= m < j ==> hay@[i + m] == needle@[m],
                !same ==> !occurs_at(hay@, needle@, i as int),
            decreases nl - j + (if same { 1int } else { 0int }),
        {
            if hay.get_char(i + j) != needle.get_char(j) {
                assert(hay@.subrange(i as int, i + nl)[j as int] == hay@[i + j]);
                same = false;
            } else {
                j = j + 1;
            }
        }
        if same {
            assert(hay@.subrange(i as int, i + nl) =~= needle@);
            assert(occurs_at(hay@, needle@, i as int));
            return true;
        }
        if i == hl - nl {
            return false;
        }
        i = i + 1;
    }
    false
}

/// Whether two texts hold the same characters.
pub fn same_text(a: &str, b: &str) -> (r: bool)
    ensures
        r == (a@ == b@),
{
    let al = a.unicode_len();
    if al != b.unicode_len() {
        return false;
    }
    let mut i: usize = 0;
    while i < al
        invariant
            al == a@.len(),
            al == b@.len(),
            i <= al,
            forall|m: int| 0 <= m < i ==> a@[m] == b@[m],
        decreases al - i,
    {
        if a.get_char(i) != b.get_char(i) {
            return false;
        }
        i = i + 1;
    }
    assert(a@ =~= b@);
    true
}

/// The text that keywords are searched in: category, setup and punchline,
/// joined by spaces and lower-cased.
pub open spec fn search_text(j: JokeView) -> Seq<char> {
    lower_of(j.category + seq![' '] + j.setup + seq![' '] + j.punchline)
}

pub fn searchable_text(j: &Joke) -> (r: String)
    ensures
        r@ == search_text(j@),
{
    let mut s = String::new();
    s.append(j.joke_type.as_str());
    s.append(" ");
    s.append(j.setup.as_str());
    s.append(" ");
    s.append(j.punchline.as_str());
    proof {
        reveal_strlit(" ");
        assert(s@ =~= j@.category + seq![' '] + j@.setup + seq![' '] + j@.punchline);
    }
    lowercase(s.as_str())
}

/// A joke matches a keyword (already lower-cased) when the keyword occurs in
/// its searchable text.
pub open spec fn matches_keyword(j: JokeView, keyword: Seq<char>) -> bool {
    contains_seq(search_text(j), keyword)
}

pub fn joke_matches(j: &Joke, keyword: &str) -> (r: bool)
    ensures
        r == matches_keyword(j@, keyword@),
{
    let text = searchable_text(j);
    contains_text(text.as_str(), keyword)
}

/// A keyword as the pipeline uses it: lower-cased when present.
pub open spec fn normalized(keyword: Option<Seq<char>>) -> Option<Seq<char>> {
    match keyword {
        Some(k) => Some(lower_of(k)),
        None => None,
    }
}

pub fn normalize_keyword(keyword: Option<&str>) -> (r: Option<String>)
    ensures
        r.is_some() == keyword.is_some(),
        r.is_some() ==> r.unwrap()@ == lower_of(keyword.unwrap()@),
{
    match keyword {
        Some(k) => Some(lowercase(k)),
        None => None,
    }
}

} // verus!
