use vstd::prelude::*;

use crate::envelope::Article;
use crate::envelope::ArticleView;

verus! {

/// What the surrounding application persists between runs: the theme
/// choice and the API key. The client consumes only the key.
#[derive(Debug, PartialEq, Eq, Clone)]
pub struct HeadlinesConfig {
    pub dark_mode: bool,
    pub api_key: String,
}

impl HeadlinesConfig {
    /// A fresh configuration: dark theme, no key yet.
    pub fn new() -> (r: HeadlinesConfig)
        ensures
            r.dark_mode == true,
            r.api_key@ == Seq::<char>::empty(),
    {
        HeadlinesConfig { dark_mode: true, api_key: String::new() }
    }
}

impl Default for HeadlinesConfig {
    /// The configuration used when none was persisted: light theme, no
    /// key.
    fn default() -> (r: HeadlinesConfig)
        ensures
            r.dark_mode == false,
            r.api_key@ == Seq::<char>::empty(),
    {
        HeadlinesConfig { dark_mode: false, api_key: String::new() }
    }
}

/// One display record: what the interface shows for an article.
#[derive(Debug, PartialEq, Eq, Clone)]
pub struct NewCardData {
    pub title: String,
    pub desc: String,
    pub url: String,
}

/// How a display record renders an article: title and link copied, and the
/// placeholder standing in for an absent description.
pub open spec fn spec_card_matches(c: NewCardData, a: ArticleView) -> bool {
    &&& c.title@ == a.title
    &&& c.url@ == a.url
    &&& (a.description matches Some(d) ==> c.desc@ == d)
    &&& (a.description is None ==> c.desc@ == "..."@)
}

/// The display record of one article.
pub fn news_card(a: &Article) -> (r: NewCardData)
    ensures
        spec_card_matches(r, a@),
{
    let desc: String = match a.desc() {
        Some(d) => d.clone(),
        None => "...".to_owned(),
    };
    NewCardData { title: a.title().to_owned(), desc, url: a.url().to_owned() }
}

/// The display records of the fetched articles, in order.
#[verifier::loop_isolation(false)]
pub fn to_cards(articles: &Vec<Article>) -> (r: Vec<NewCardData>)
    ensures
        r@.len() == articles@.len(),
        forall|i: int| 0 <= i < articles@.len() ==> spec_card_matches(
            #[trigger] r@[i],
            articles@[i]@,
        ),
{
    let mut cards: Vec<NewCardData> = Vec::new();
    let mut i: usize = 0;
    while i < articles.len()
        invariant
            0 <= i <= articles@.len(),
            cards@.len() == i,
            forall|j: int| 0 <= j < i ==> spec_card_matches(#[trigger] cards@[j], articles@[j]@),
        decreases articles@.len() - i,
    {
        let card = news_card(&articles[i]);
        cards.push(card);
        i = i + 1;
    }
    cards
}

/// The interface's state: the cards on show, the configuration, and
/// whether a key has been entered yet.
#[derive(Debug)]
pub struct Headlines {
    pub articles: Vec<NewCardData>,
    pub config: HeadlinesConfig,
    pub api_key_initialized: bool,
}

impl Headlines {
    /// Flip between the dark and the light theme, touching nothing else.
    pub fn toggle_dark_mode(&mut self)
        ensures
            final(self).config.dark_mode == !old(self).config.dark_mode,
            final(self).config.api_key == old(self).config.api_key,
            final(self).articles == old(self).articles,
            final(self).api_key_initialized == old(self).api_key_initialized,
    {
        self.config.dark_mode = !self.config.dark_mode;
    }
}

} // verus!
