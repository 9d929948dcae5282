//! A summarizing trait and two record types that implement it. Each
//! implementation pins its rendered summary down to an exact character
//! sequence through the trait's spec functions.

use vstd::prelude::*;

verus! {

pub trait Summary {
    /// The summary this value renders.
    spec fn spec_summary(&self) -> Seq<char>;

    /// The author line this value renders.
    spec fn spec_author(&self) -> Seq<char>;

    fn summarize(&self) -> (r: String)
        ensures
            r@ == self.spec_summary(),
    ;

    fn summarize_author(&self) -> (r: String)
        ensures
            r@ == self.spec_author(),
    ;
}

pub struct NewsArticle {
    pub headline: String,
    pub location: String,
    pub author: String,
    pub content: String,
}

impl Summary for NewsArticle {
    open spec fn spec_summary(&self) -> Seq<char> {
        self.headline@ + " - "@ + self.author@ + " ("@ + self.location@ + ")"@
    }

    open spec fn spec_author(&self) -> Seq<char> {
        "@"@ + self.author@
    }

    fn summarize(&self) -> (r: String) {
        let mut s = self.headline.clone();
        s.append(" - ");
        s.append(self.author.as_str());
        s.append(" (");
        s.append(self.location.as_str());
        s.append(")");
        s
    }

    fn summarize_author(&self) -> (r: String) {
        let mut s = String::from_str("@");
        s.append(self.author.as_str());
        s
    }
}

pub struct Tweet {
    pub username: String,
    pub content: String,
    pub reply: bool,
    pub retweet: bool,
}

impl Summary for Tweet {
    open spec fn spec_summary(&self) -> Seq<char> {
        self.username@ + ": "@ + self.content@
    }

    open spec fn spec_author(&self) -> Seq<char> {
        "(unknown author)"@
    }

    fn summarize(&self) -> (r: String) {
        let mut s = self.username.clone();
        s.append(": ");
        s.append(self.content.as_str());
        s
    }

    fn summarize_author(&self) -> (r: String) {
        String::from_str("(unknown author)")
    }
}

/// A sample summarizable value.
pub fn returns_summarizable() -> (r: Tweet)
    ensures
        r.username@ == "horse_ebooks"@,
        r.content@ == "of course, as you probably already know, people"@,
        r.reply == false,
        r.retweet == false,
{
    Tweet {
        username: String::from_str("horse_ebooks"),
        content: String::from_str("of course, as you probably already know, people"),
        reply: false,
        retweet: false,
    }
}

} // verus!
