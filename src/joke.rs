use vstd::prelude::*;

verus! {

/// A joke as the upstream service and the local dataset describe it.
#[derive(Clone, Debug, PartialEq, Eq)]
pub struct Joke {
    pub id: i32,
    pub joke_type: String,
    pub setup: String,
    pub punchline: String,
}

/// The mathematical content of a joke: its number and its three texts.
pub struct JokeView {
    pub id: i32,
    pub category: Seq<char>,
    pub setup: Seq<char>,
    pub punchline: Seq<char>,
}

impl View for Joke {
    type V = JokeView;

    open spec fn view(&self) -> JokeView {
        JokeView {
            id: self.id,
            category: self.joke_type@,
            setup: self.setup@,
            punchline: self.punchline@,
        }
    }
}

impl Joke {
    pub fn new(id: i32, joke_type: &str, setup: &str, punchline: &str) -> (r: Joke)
        ensures
            r@ == (JokeView { id, category: joke_type@, setup: setup@, punchline: punchline@ }),
    {
        Joke {
            id,
            joke_type: joke_type.to_owned(),
            setup: setup.to_owned(),
            punchline: punchline.to_owned(),
        }
    }

    /// An identical copy of the joke.
    pub fn duplicate(&self) -> (r: Joke)
        ensures
            r == *self,
    {
        Joke {
            id: self.id,
            joke_type: self.joke_type.clone(),
            setup: self.setup.clone(),
            punchline: self.punchline.clone(),
        }
    }
}

pub open spec fn joke_view(id: i32, category: &str, setup: &str, punchline: &str) -> JokeView {
    JokeView { id, category: category@, setup: setup@, punchline: punchline@ }
}

/// The local dataset, in its fixed order.
pub open spec fn fallback_view() -> Seq<JokeView> {
    seq![
        joke_view(1, "general", "Why did the tomato turn red?", "Because it saw the salad dressing!"),
        joke_view(
            2,
            "programming",
            "Why do programmers prefer dark mode?",
            "Because the light attracts bugs.",
        ),
        joke_view(
            3,
            "knock-knock",
            "Knock knock. Who's there?",
            "Boo. Boo who? Don't cry, it's just a joke!",
        ),
    ]
}

/// The jokes served when the upstream service cannot be reached: the tomato
/// joke, the programmer joke and the knock-knock joke, in that order.
pub fn fallback_jokes() -> (r: Vec<Joke>)
    ensures
        r@.len() == fallback_view().len(),
        forall|i: int| 0 <= i < r@.len() ==> #[trigger] r@[i]@ == fallback_view()[i],
{
    let r = vec![
        Joke::new(1, "general", "Why did the tomato turn red?", "Because it saw the salad dressing!"),
        Joke::new(
            2,
            "programming",
            "Why do programmers prefer dark mode?",
            "Because the light attracts bugs.",
        ),
        Joke::new(
            3,
            "knock-knock",
            "Knock knock. Who's there?",
            "Boo. Boo who? Don't cry, it's just a joke!",
        ),
    ];
    r
}

/// The categories assumed when the upstream service cannot list them.
pub open spec fn default_types_view() -> Seq<Seq<char>> {
    seq!["general"@, "programming"@, "knock-knock"@]
}

pub fn default_types() -> (r: Vec<String>)
    ensures
        r.deep_view() == default_types_view(),
{
    let r = vec!["general".to_owned(), "programming".to_owned(), "knock-knock".to_owned()];
    assert(r.deep_view() =~= default_types_view());
    r
}

} // verus!
