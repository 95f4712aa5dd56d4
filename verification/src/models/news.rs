//! Headlines as the news provider sends them.

use vstd::prelude::*;

verus! {

/// The body of the news provider's answer.
#[derive(Clone, Debug, PartialEq, Eq)]
pub struct GNewsResponse {
    pub articles: Vec<Article>,
}

/// One headline.
#[derive(Clone, Debug, PartialEq, Eq)]
pub struct Article {
    pub title: String,
}

impl View for Article {
    type V = Seq<char>;

    /// A headline stands for its title.
    open spec fn view(&self) -> Seq<char> {
        self.title@
    }
}

/// The titles of a run of headlines, in order.
pub open spec fn titles(articles: Seq<Article>) -> Seq<Seq<char>> {
    Seq::new(articles.len(), |i: int| articles[i]@)
}

} // verus!
