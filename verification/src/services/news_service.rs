//! The news lookup: the request that is sent, what the answer amounts to, and
//! the wording of the headlines in a reply.

use vstd::prelude::*;
use vstd::string::*;
use crate::models::news::{titles, Article, GNewsResponse};
use crate::models::provider::{FailureKind, Fetched};
use crate::services::provider_service::{fetch_outcome, outcome};
use crate::utils::text::{decimal, push_decimal};

verus! {

/// The address of the top headlines in Portuguese for Brazil.
pub open spec fn news_url(token: Seq<char>) -> Seq<char> {
    "https://gnews.io/api/v4/top-headlines?lang=pt&country=br&token="@ + token
}

/// Builds the address of the top headlines.
pub fn news_request_url(token: &str) -> (url: String)
    ensures
        url@ == news_url(token@),
{
    let mut url = String::from_str(
        "https://gnews.io/api/v4/top-headlines?lang=pt&country=br&token=",
    );
    url.append(token);
    url
}

/// What a news lookup amounts to: the provider's headlines in the
/// provider's order, or the kind of failure.
pub open spec fn news_outcome(fetched: Fetched<GNewsResponse>) -> Result<Vec<Article>, FailureKind> {
    match fetch_outcome(fetched) {
        Ok(body) => Ok(body.articles),
        Err(kind) => Err(kind),
    }
}

/// Judges one attempt to fetch the top headlines.
pub fn get_top_headlines(fetched: Fetched<GNewsResponse>) -> (result: Result<
    Vec<Article>,
    FailureKind,
>)
    ensures
        result == news_outcome(fetched),
{
    match outcome(fetched) {
        Ok(body) => Ok(body.articles),
        Err(kind) => Err(kind),
    }
}

/// The headlines that a reply is composed from: the lookup's, or none where
/// the lookup failed.
pub open spec fn headlines_or_none(result: Result<Vec<Article>, FailureKind>) -> Seq<Article> {
    match result {
        Ok(articles) => articles@,
        Err(_) => Seq::empty(),
    }
}

/// Replaces a failed lookup by an empty list of headlines.
pub fn usable_headlines(result: Result<Vec<Article>, FailureKind>) -> (articles: Vec<Article>)
    ensures
        articles@ == headlines_or_none(result),
{
    match result {
        Ok(articles) => articles,
        Err(_) => Vec::new(),
    }
}

/// The sentence that stands where there are no headlines.
pub open spec fn no_news_text() -> Seq<char> {
    "Não há notícias disponíveis no momento."@
}

/// The most headlines that a reply lists.
pub open spec fn listed_limit() -> nat {
    3
}

/// One line of the list: the number, a full stop, a space, the title, and a
/// line feed.
pub open spec fn news_line(number: nat, title: Seq<char>) -> Seq<char> {
    decimal(number) + ". "@ + title + "\n"@
}

/// The first `count` titles as a numbered list that starts at 1.
pub open spec fn numbered_lines(titles: Seq<Seq<char>>, count: nat) -> Seq<char>
    recommends
        count <= titles.len(),
    decreases count,
{
    if count == 0 {
        Seq::empty()
    } else {
        numbered_lines(titles, (count - 1) as nat) + news_line(count, titles[count - 1])
    }
}

/// How many of `available` headlines are listed.
pub open spec fn listed_count(available: nat) -> nat {
    if available < listed_limit() {
        available
    } else {
        listed_limit()
    }
}

/// The news block of a reply: the fixed sentence where there are no
/// headlines, else the first three at most, numbered, one per line.
pub open spec fn news_block(titles: Seq<Seq<char>>) -> Seq<char> {
    if titles.len() == 0 {
        no_news_text()
    } else {
        numbered_lines(titles, listed_count(titles.len()))
    }
}

/// Words the headlines for a reply.
pub fn format_news_articles(articles: &[Article]) -> (formatted: String)
    ensures
        formatted@ == news_block(titles(articles@)),
{
    if articles.len() == 0 {
        return String::from_str("Não há notícias disponíveis no momento.");
    }
    let count: usize = if articles.len() < 3 {
        articles.len()
    } else {
        3
    };
    let mut formatted = String::new();
    let mut i: usize = 0;
    while i < count
        invariant
            i <= count <= articles.len(),
            count <= 3,
            formatted@ == numbered_lines(titles(articles@), i as nat),
        decreases count - i,
    {
        let ghost before = formatted@;
        push_decimal(&mut formatted, (i + 1) as u64);
        formatted.append(". ");
        formatted.append(articles[i].title.as_str());
        formatted.append("\n");
        i = i + 1;
        assert(formatted@ =~= before + news_line(i as nat, titles(articles@)[i - 1]));
    }
    formatted
}

/// Where there is nothing to list, the news block is the fixed sentence:
/// after a lookup that failed, and after one that gave no headline.
pub proof fn lemma_no_headlines(result: Result<Vec<Article>, FailureKind>)
    requires
        result is Err || result->Ok_0@.len() == 0,
    ensures
        news_block(titles(headlines_or_none(result))) == no_news_text(),
{
}

/// Of three or more headlines the news block lists the first three, numbered
/// 1 to 3 in the provider's order, and nothing of the others.
pub proof fn lemma_first_three_listed(titles: Seq<Seq<char>>)
    requires
        titles.len() >= 3,
    ensures
        news_block(titles) == news_line(1, titles[0]) + news_line(2, titles[1]) + news_line(
            3,
            titles[2],
        ),
{
    reveal_with_fuel(numbered_lines, 4);
    assert(numbered_lines(titles, 0) + news_line(1, titles[0]) =~= news_line(1, titles[0]));
}

/// Of one or two headlines the news block lists each, numbered from 1 in the
/// provider's order.
pub proof fn lemma_all_listed_below_three(titles: Seq<Seq<char>>)
    requires
        1 <= titles.len() <= 2,
    ensures
        titles.len() == 1 ==> news_block(titles) == news_line(1, titles[0]),
        titles.len() == 2 ==> news_block(titles) == news_line(1, titles[0]) + news_line(
            2,
            titles[1],
        ),
{
    reveal_with_fuel(numbered_lines, 3);
    assert(numbered_lines(titles, 0) + news_line(1, titles[0]) =~= news_line(1, titles[0]));
}

} // verus!
