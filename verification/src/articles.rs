//! Summaries of articles and tweets.

use vstd::prelude::*;
use vstd::string::StringExecFns;

verus! {

/// Anything that can summarize itself in one line.  Each implementation
/// pins down its own summary text through `summary_view`.
pub trait Summary: Sized {
    /// The exact text the summary is promised to be.
    spec fn summary_view(&self) -> Seq<char>;

    /// Produces the one-line summary.
    fn summarize(&self) -> (r: String)
        ensures
            r@ == self.summary_view(),
    ;
}

/// Like [`Summary`], but implementations only name their author; the
/// summary line itself has a default wording.
pub trait SummaryWithDefaultImplementation: Sized {
    /// The exact author text `summarize_author` is promised to return.
    spec fn author_view(&self) -> Seq<char>;

    /// Names the author.
    fn summarize_author(&self) -> (r: String)
        ensures
            r@ == self.author_view(),
    ;

    /// The default summary line: a read-more pointer at the author.
    fn summarize(&self) -> (r: String)
        ensures
            r@ == "(Read more from "@ + self.author_view() + "...)"@,
    {
        let author = self.summarize_author();
        String::from_str("(Read more from ").concat(author.as_str()).concat("...)")
    }
}

/// A news article.
pub struct NewsArticle {
    pub headline: String,
    pub location: String,
    pub author: String,
    pub content: String,
}

impl Summary for NewsArticle {
    open spec fn summary_view(&self) -> Seq<char> {
        self.headline@ + ", by "@ + self.author@ + " ("@ + self.location@ + ")"@
    }

    fn summarize(&self) -> (r: String) {
        self.headline.clone().concat(", by ").concat(self.author.as_str()).concat(
            " (",
        ).concat(self.location.as_str()).concat(")")
    }
}

impl SummaryWithDefaultImplementation for NewsArticle {
    open spec fn author_view(&self) -> Seq<char> {
        self.author@
    }

    fn summarize_author(&self) -> (r: String) {
        self.author.clone()
    }
}

/// A tweet.
pub struct Tweet {
    pub username: String,
    pub content: String,
    pub reply: bool,
    pub retweet: bool,
}

impl Summary for Tweet {
    open spec fn summary_view(&self) -> Seq<char> {
        self.username@ + ": "@ + self.content@
    }

    fn summarize(&self) -> (r: String) {
        self.username.clone().concat(": ").concat(self.content.as_str())
    }
}

impl SummaryWithDefaultImplementation for Tweet {
    open spec fn author_view(&self) -> Seq<char> {
        "@"@ + self.username@
    }

    fn summarize_author(&self) -> (r: String) {
        String::from_str("@").concat(self.username.as_str())
    }
}

/// Builds the sample tweet used to show a summary off.
pub fn returns_summarizable() -> (r: Tweet)
    ensures
        r.username@ == "horse_ebooks"@,
        r.content@ == "of course, as you probably already know, people"@,
        !r.reply,
        !r.retweet,
{
    Tweet {
        username: String::from_str("horse_ebooks"),
        content: String::from_str("of course, as you probably already know, people"),
        reply: false,
        retweet: false,
    }
}

} // verus!
