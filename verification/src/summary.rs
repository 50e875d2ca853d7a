//! A summarising trait with two implementors, the largest element of a
//! slice by value, and a pair whose members share one type.

use crate::generics::{comparison_obeyed, gt_spec};
use vstd::prelude::*;
use vstd::std_specs::cmp::PartialOrdSpec;
use vstd::string::*;

verus! {

/// Something that can summarise itself in one line, and offer more.
pub trait Summary: Sized {
    /// What `summarize` returns for this type.
    spec fn summary_rep(&self) -> Seq<char>;

    /// What `more` returns for this type.
    spec fn more_rep(&self) -> Seq<char>;

    /// The one-line summary.
    fn summarize(&self) -> (s: String)
        ensures
            s@ == self.summary_rep(),
    ;

    /// The follow-up line.
    fn more(&self) -> (s: String)
        ensures
            s@ == self.more_rep(),
    ;
}

/// A news article: headline, origin, author and body.
pub struct NewsArticle {
    pub headline: String,
    pub location: String,
    pub author: String,
    pub content: String,
}

impl Summary for NewsArticle {
    /// `<headline>, by <author> (<location>)`.
    open spec fn summary_rep(&self) -> Seq<char> {
        self.headline@ + ", by "@ + self.author@ + " ("@ + self.location@ + ")"@
    }

    /// Articles keep the stock follow-up line.
    open spec fn more_rep(&self) -> Seq<char> {
        "(Read more...)"@
    }

    fn summarize(&self) -> (s: String) {
        let mut s = self.headline.clone();
        s.append(", by ");
        s.append(self.author.as_str());
        s.append(" (");
        s.append(self.location.as_str());
        s.append(")");
        assert(s@ =~= self.summary_rep());
        s
    }

    fn more(&self) -> (s: String) {
        "(Read more...)".to_owned()
    }
}

/// A tweet: who wrote it, what it says, and what kind of post it is.
pub struct Tweet {
    pub username: String,
    pub content: String,
    pub reply: bool,
    pub retweet: bool,
}

impl Summary for Tweet {
    /// `<username>: <content>`.
    open spec fn summary_rep(&self) -> Seq<char> {
        self.username@ + ": "@ + self.content@
    }

    /// Tweets chirp their own follow-up line.
    open spec fn more_rep(&self) -> Seq<char> {
        "(Tweet more...chirp chirp!)"@
    }

    fn summarize(&self) -> (s: String) {
        let mut s = self.username.clone();
        s.append(": ");
        s.append(self.content.as_str());
        assert(s@ =~= self.summary_rep());
        s
    }

    fn more(&self) -> (s: String) {
        "(Tweet more...chirp chirp!)".to_owned()
    }
}

/// The breaking-news line for anything summarisable:
/// `Breaking news! <summary>`.
pub fn notify_line<T: Summary>(item: &T) -> (s: String)
    ensures
        s@ == "Breaking news! "@ + item.summary_rep(),
{
    let mut s: String = "Breaking news! ".to_owned();
    s.append(item.summarize().as_str());
    s
}

/// A sample summarisable value: a fixed tweet from a prolific spammer.
pub fn returns_summarizable() -> (t: Tweet)
    ensures
        t.username@ == "spammy_mc_spammer"@,
        t.content@ == "tweet tweet tweet tweet tweeeeeeeet"@,
        t.reply == false,
        t.retweet == false,
{
    Tweet {
        username: "spammy_mc_spammer".to_owned(),
        content: "tweet tweet tweet tweet tweeeeeeeet".to_owned(),
        reply: false,
        retweet: false,
    }
}

/// The largest element of a nonempty slice, by value: no element
/// compares greater than the one returned.
pub fn largest<T: PartialOrd + Copy>(list: &[T]) -> (r: T)
    requires
        list@.len() > 0,
    ensures
        exists|i: int| 0 <= i < list@.len() && r == list@[i],
        comparison_obeyed::<T>() ==> forall|i: int| 0 <= i < list@.len() ==> !gt_spec(list@[i], r),
{
    let mut largest: T = list[0];
    let mut k: usize = 1;
    while k < list.len()
        invariant
            1 <= k <= list@.len(),
            exists|i: int| 0 <= i < k && largest == list@[i],
            comparison_obeyed::<T>() ==> forall|i: int| 0 <= i < k ==> !gt_spec(list@[i], largest),
        decreases list@.len() - k,
    {
        let item = list[k];
        if item > largest {
            proof {
                if comparison_obeyed::<T>() {
                    assert forall|i: int| 0 <= i < k implies !gt_spec(list@[i], item) by {
                        if gt_spec(list@[i], item) {
                            assert(gt_spec(item, largest));
                            assert(gt_spec(list@[i], largest));
                        }
                    }
                }
            }
            largest = item;
        }
        k += 1;
    }
    largest
}

/// Two values of one type, kept together.
pub struct Pair<T> {
    x: T,
    y: T,
}

impl<T> Pair<T> {
    /// The first member; for contracts.
    pub closed spec fn spec_x(&self) -> &T {
        &self.x
    }

    /// The second member; for contracts.
    pub closed spec fn spec_y(&self) -> &T {
        &self.y
    }

    /// Pairs up two values.
    pub fn new(x: T, y: T) -> (p: Self)
        ensures
            *p.spec_x() == x,
            *p.spec_y() == y,
    {
        Self { x, y }
    }

    /// Reads the first member.
    pub fn x(&self) -> (r: &T)
        ensures
            r == self.spec_x(),
    {
        &self.x
    }

    /// Reads the second member.
    pub fn y(&self) -> (r: &T)
        ensures
            r == self.spec_y(),
    {
        &self.y
    }
}

impl<T: PartialOrd> Pair<T> {
    /// Whether the first member is at least the second, as `>=` answers
    /// it; exact whenever the type's comparisons follow their
    /// specification.
    pub fn first_at_least_second(&self) -> (r: bool)
        ensures
            T::obeys_partial_cmp_spec() ==> r == (self.spec_x().partial_cmp_spec(
                self.spec_y(),
            ) matches Some(core::cmp::Ordering::Greater | core::cmp::Ordering::Equal)),
    {
        self.x >= self.y
    }
}

} // verus!
