use vstd::prelude::*;
use vstd::string::StringExecFns;

verus! {

/// A news story.
pub struct NewsArticle {
    pub headline: String,
    pub location: String,
    pub author: String,
    pub content: String,
}

/// A short post on a microblogging service.
pub struct Tweet {
    pub username: String,
    pub content: String,
    pub reply: bool,
    pub retweet: bool,
}

/// A post from an official account on a messaging platform.
pub struct Wechat {
    pub official_account: String,
    pub title: String,
}

/// The capability of producing a one-line digest of a value's fields.
///
/// `digest` is the mathematical text that `summarize` must return; since it
/// is a spec function of the value alone, every call on the same value gives
/// the same text.
pub trait Summary {
    spec fn digest(&self) -> Seq<char>;

    fn summarize(&self) -> (r: String)
        ensures
            r@ == self.digest(),
    ;
}

impl Summary for NewsArticle {
    /// `<headline>, by <author> (<location>)`
    open spec fn digest(&self) -> Seq<char> {
        self.headline@ + ", by "@ + self.author@ + " ("@ + self.location@ + ")"@
    }

    fn summarize(&self) -> (r: String) {
        let mut r = self.headline.clone();
        r.append(", by ");
        r.append(self.author.as_str());
        r.append(" (");
        r.append(self.location.as_str());
        r.append(")");
        r
    }
}

impl Summary for Tweet {
    /// `<username>: <content>`
    open spec fn digest(&self) -> Seq<char> {
        self.username@ + ": "@ + self.content@
    }

    fn summarize(&self) -> (r: String) {
        let mut r = self.username.clone();
        r.append(": ");
        r.append(self.content.as_str());
        r
    }
}

impl Summary for Wechat {
    /// `Wechat from <official_account>: <title>`
    open spec fn digest(&self) -> Seq<char> {
        "Wechat from "@ + self.official_account@ + ": "@ + self.title@
    }

    fn summarize(&self) -> (r: String) {
        let mut r = String::from_str("Wechat from ");
        r.append(self.official_account.as_str());
        r.append(": ");
        r.append(self.title.as_str());
        r
    }
}

/// The notice announcing a digest.
pub open spec fn breaking_news(digest: Seq<char>) -> Seq<char> {
    "Breaking news! "@ + digest
}

/// The notice for any summarizable value, whatever its type.
pub open spec fn notice<T: Summary + ?Sized>(item: &T) -> Seq<char> {
    breaking_news(item.digest())
}

fn announce(digest: String) -> (r: String)
    ensures
        r@ == breaking_news(digest@),
{
    let mut r = String::from_str("Breaking news! ");
    r.append(digest.as_str());
    r
}

/// Announces `item`, with a copy of this function made for each type it is
/// called with.
pub fn notify_static(item: &impl Summary) -> (r: String)
    ensures
        r@ == notice(item),
{
    announce(item.summarize())
}

/// Announces `item`, whose `summarize` is found through its method table
/// when called: one copy of this function serves every type.
pub fn notify_dynamic(item: &dyn Summary) -> (r: String)
    ensures
        r@ == notice(item),
{
    announce(item.summarize())
}

/// Announces every item of a batch of values of mixed types: one notice per
/// item, in the order of the batch, each the text that `notify_dynamic` gives
/// for that item.
pub fn process(batch: Vec<Box<dyn Summary>>) -> (r: Vec<String>)
    ensures
        r@.len() == batch@.len(),
        forall|i: int| 0 <= i < batch@.len() ==> #[trigger] r@[i]@ == notice(&*batch@[i]),
{
    let mut r: Vec<String> = Vec::new();
    let mut i: usize = 0;
    while i < batch.len()
        invariant
            i <= batch@.len(),
            r@.len() == i,
            forall|j: int| 0 <= j < i ==> #[trigger] r@[j]@ == notice(&*batch@[j]),
        decreases batch@.len() - i,
    {
        let digest = batch[i].summarize();
        r.push(announce(digest));
        i = i + 1;
    }
    r
}

/// Static and dynamic dispatch announce a value with the same text: for each
/// kind of content, the notice of a value seen through its own type equals
/// its notice seen through a `dyn Summary` handle, and both are
/// "Breaking news! " followed by its digest.
pub proof fn notifiers_agree(article: &NewsArticle, tweet: &Tweet, wechat: &Wechat)
    ensures
        notice::<NewsArticle>(article) == notice::<dyn Summary>(article),
        notice::<NewsArticle>(article) == "Breaking news! "@ + article.digest(),
        notice::<Tweet>(tweet) == notice::<dyn Summary>(tweet),
        notice::<Tweet>(tweet) == "Breaking news! "@ + tweet.digest(),
        notice::<Wechat>(wechat) == notice::<dyn Summary>(wechat),
        notice::<Wechat>(wechat) == "Breaking news! "@ + wechat.digest(),
{
}

} // verus!
