use vstd::prelude::*;
use vstd::string::*;

verus! {

/// A news article.
#[derive(Clone, Debug)]
pub struct NewsArticle {
    pub headline: String,
    pub author: String,
    pub content: String,
}

/// A short post, possibly a reply or a repost.
#[derive(Clone, Debug)]
pub struct Tweet {
    pub username: String,
    pub content: String,
    pub reply: bool,
    pub retweet: bool,
}

/// The summary that stands for an item whose type gives only its author.
pub open spec fn read_more(author: Seq<char>) -> Seq<char> {
    "(Read more from "@ + author + "...)"@
}

/// Something that can be summarized in one line of text.
pub trait Summary {
    /// The text that names the item's author.
    spec fn author_text(&self) -> Seq<char>;

    /// Returns the text that names the item's author.
    fn summarize_author(&self) -> (r: String)
        ensures
            r@ == self.author_text(),
    ;

    /// Returns a one-line summary; unless a type gives its own, one that points
    /// the reader to the author.
    fn summarize(&self) -> (r: String)
        default_ensures
            r@ == read_more(self.author_text()),
    {
        let mut s = String::from_str("(Read more from ");
        let author = self.summarize_author();
        s.append(author.as_str());
        s.append("...)");
        s
    }
}

impl Summary for NewsArticle {
    open spec fn author_text(&self) -> Seq<char> {
        self.author@
    }

    fn summarize_author(&self) -> (r: String) {
        self.author.clone()
    }
}

impl Summary for Tweet {
    open spec fn author_text(&self) -> Seq<char> {
        "@"@ + self.username@
    }

    fn summarize_author(&self) -> (r: String) {
        let mut s = String::from_str("@");
        s.append(self.username.as_str());
        s
    }

    fn summarize(&self) -> (r: String)
        ensures
            r@ == self.username@ + ": "@ + self.content@,
    {
        let mut s = self.username.clone();
        s.append(": ");
        s.append(self.content.as_str());
        s
    }
}

/// Returns a summarizable item: a greeting tweet by `@john_doe`.
pub fn returns_summarizable() -> (r: impl Summary)
    ensures
        r.author_text() == "@"@ + "@john_doe"@,
{
    Tweet {
        username: String::from_str("@john_doe"),
        content: String::from_str("Hello, World!"),
        reply: false,
        retweet: false,
    }
}

/// Returns the line that announces an item: "Breaking news! " and its
/// summary.
pub fn notification(item: &impl Summary) -> (r: String)
    ensures
        exists|s: String| call_ensures(Summary::summarize, (item,), s) && r@ == "Breaking news! "@ + s@,
{
    let mut line = String::from_str("Breaking news! ");
    let s = item.summarize();
    line.append(s.as_str());
    line
}

/// Takes two summarizable items, each of its own type, and does nothing with
/// them.
pub fn dup_notify(item1: &impl Summary, item2: &impl Summary) {
}

/// Takes two summarizable items of one type and does nothing with them.
pub fn dup_notify1<T: Summary>(item1: &T, item2: &T) {
}

/// Takes a displayable value and a summarizable one, and returns 0.
pub fn some_function<T: std::fmt::Display + Clone, U: Clone + Summary>(t: &T, u: &U) -> (r: i32)
    ensures
        r == 0,
{
    0
}

/// Takes a displayable value and a summarizable one, and returns 0.
pub fn some_function1<T, U>(t: &T, u: &U) -> (r: i32)
    where T: std::fmt::Display + Clone, U: Clone + Summary
    ensures
        r == 0,
{
    0
}

} // verus!
