//! Things that can be summed up in a line, and what can be done with
//! anything that can.

use core::cmp::Ordering;
use vstd::prelude::*;
use vstd::std_specs::cmp::PartialOrdSpec;
use vstd::string::StringExecFns;

verus! {

/// A piece of news.
pub struct NewsArticle {
    pub headline: String,
    pub location: String,
    pub author: String,
    pub content: String,
}

/// A tweet.
#[derive(Debug)]
pub struct Tweet {
    pub username: String,
    pub content: String,
    pub reply: bool,
    pub retweet: bool,
}

/// Whatever can be summed up in a line.
pub trait Summary {
    /// Sums the value up in a line.
    fn summarize(&self) -> String;

    /// Where the value comes from. Unless a type knows better, it was passed
    /// on in a group chat.
    fn summarize_source(&self) -> (source: String)
        default_ensures
            source@ == "群里转的..."@,
    {
        String::from_str("群里转的...")
    }
}

impl NewsArticle {
    /// The line that sums the article up.
    pub open spec fn summary(&self) -> Seq<char> {
        self.headline@ + ", by "@ + self.author@ + " ("@ + self.location@ + ")"@
    }
}

impl Summary for NewsArticle {
    /// The headline, the author, and the place in round brackets.
    fn summarize(&self) -> (line: String)
        ensures
            line@ == self.summary(),
    {
        let mut line = String::from_str(self.headline.as_str());
        line.append(", by ");
        line.append(self.author.as_str());
        line.append(" (");
        line.append(self.location.as_str());
        line.append(")");
        line
    }

    /// News is written, not passed on.
    fn summarize_source(&self) -> (source: String)
        ensures
            source@ == "不是转载的！！！"@,
    {
        String::from_str("不是转载的！！！")
    }
}

impl Tweet {
    /// The line that sums the tweet up.
    pub open spec fn summary(&self) -> Seq<char> {
        self.username@ + ": "@ + self.content@
    }
}

impl Summary for Tweet {
    /// Who tweeted, and what.
    fn summarize(&self) -> (line: String)
        ensures
            line@ == self.summary(),
    {
        let mut line = String::from_str(self.username.as_str());
        line.append(": ");
        line.append(self.content.as_str());
        line
    }
}

/// The news flash for a value summed up as `summary`.
pub open spec fn breaking_news(summary: Seq<char>) -> Seq<char> {
    "Breaking news! "@ + summary
}

/// Whether `flash` is the news flash for a line that `item` may sum itself
/// up in.
pub open spec fn is_flash_for<T: Summary>(item: T, flash: Seq<char>) -> bool {
    exists|line: String|
        call_ensures(T::summarize, (&item,), line) && flash == breaking_news(line@)
}

/// The news flash for `item`: "Breaking news!" and the line in which the
/// item sums itself up.
pub fn notify(item: impl Summary) -> (flash: String)
    ensures
        is_flash_for(item, flash@),
{
    let line = item.summarize();
    let mut flash = String::from_str("Breaking news! ");
    flash.append(line.as_str());
    flash
}

/// The news flash for `item`, the bound written out.
pub fn trait_bound_notify<T: Summary>(item: T) -> (flash: String)
    ensures
        is_flash_for(item, flash@),
{
    let line = item.summarize();
    let mut flash = String::from_str("Breaking news! ");
    flash.append(line.as_str());
    flash
}

/// The news flash for `item`, which is of a type that can also be printed.
pub fn notify_ex(item: impl Summary + core::fmt::Display) -> (flash: String)
    ensures
        is_flash_for(item, flash@),
{
    let line = item.summarize();
    let mut flash = String::from_str("Breaking news! ");
    flash.append(line.as_str());
    flash
}

/// The news flash for a tweet says who tweeted what.
pub proof fn lemma_flash_for_tweet(tweet: Tweet, flash: Seq<char>)
    requires
        is_flash_for(tweet, flash),
    ensures
        flash == breaking_news(tweet.summary()),
{
}

/// Whether `item` sums itself up as `text` and in no other way.
pub open spec fn sums_up_as<T: Summary>(item: T, text: Seq<char>) -> bool {
    forall|line: String| call_ensures(T::summarize, (&item,), line) ==> line@ == text
}

/// The text of the tweet that `returns_summarizable` returns.
pub open spec fn recall_notice() -> Seq<char> {
    "5 月 29 日消息，近日特斯拉宣布在北美将主动召回 2018 年 12 月至..."@
}

/// Something that can be summed up; what it is, the caller is not told.
pub fn returns_summarizable() -> (item: impl Summary)
    ensures
        sums_up_as(item, "chry"@ + ": "@ + recall_notice()),
{
    Tweet {
        username: String::from_str("chry"),
        content: String::from_str(
            "5 月 29 日消息，近日特斯拉宣布在北美将主动召回 2018 年 12 月至...",
        ),
        reply: false,
        retweet: false,
    }
}

/// Two values of one type.
pub struct Pair<T> {
    pub x: T,
    pub y: T,
}

impl<T> Pair<T> {
    /// The pair of `x` and `y`.
    pub fn new(x: T, y: T) -> (pair: Self)
        ensures
            pair.x == x,
            pair.y == y,
    {
        Self { x, y }
    }
}

impl<T: core::fmt::Display + PartialOrd> Pair<T> {
    /// Whether `x` is the largest member: whether it is greater than `y` or
    /// equal to it, as `T` compares them.
    pub open spec fn x_is_largest(&self) -> bool {
        self.x.partial_cmp_spec(&self.y) == Some(Ordering::Greater) || self.x.partial_cmp_spec(
            &self.y,
        ) == Some(Ordering::Equal)
    }

    /// Tells which member is the largest: `true` for `x`, `false` for `y`.
    pub fn cmp_display(&self) -> (x_is_largest: bool)
        ensures
            T::obeys_partial_cmp_spec() ==> x_is_largest == self.x_is_largest(),
    {
        if self.x >= self.y {
            true
        } else {
            false
        }
    }
}

} // verus!
