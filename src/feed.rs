//! Comment feed items, and the choice of those that a change of votes brought.
use vstd::prelude::*;

verus! {

/// One comment of a prod's feed. A field that the feed entry lacks is `None`.
pub struct FeedItem {
    pub link: Option<String>,
    pub title: Option<String>,
    /// The vote that the commenter gave along with the comment.
    pub vote: Option<String>,
    pub description: Option<String>,
}

/// What a feed item holds, as text: link, title, vote and description.
pub type FeedItemView = (Option<Seq<char>>, Option<Seq<char>>, Option<Seq<char>>, Option<Seq<char>>);

pub open spec fn optional_text(s: Option<String>) -> Option<Seq<char>> {
    match s {
        Some(t) => Some(t@),
        None => None,
    }
}

impl View for FeedItem {
    type V = FeedItemView;

    open spec fn view(&self) -> FeedItemView {
        (
            optional_text(self.link),
            optional_text(self.title),
            optional_text(self.vote),
            optional_text(self.description),
        )
    }
}

/// The items of an RSS document, newest first as the document lists them, each with the value
/// of its first extension element `prefix:name` as its vote; `None` where the bytes are no RSS
/// document.
pub uninterp spec fn rss_items(bytes: Seq<u8>, prefix: Seq<char>, name: Seq<char>) -> Option<
    Seq<FeedItemView>,
>;

/// Relies on rss::Channel::read_from to read an RSS document, and on the link, title,
/// description and extensions accessors of rss::Item for each of its items, in order.
#[verifier::external_body]
fn read_rss(bytes: &[u8], prefix: &str, name: &str) -> (r: Option<Vec<FeedItem>>)
    ensures
        r.is_some() == rss_items(bytes@, prefix@, name@).is_some(),
        r.is_some() ==> r.unwrap()@.map_values(|i: FeedItem| i@) == rss_items(
            bytes@,
            prefix@,
            name@,
        ).unwrap(),
{
    let channel = rss::Channel::read_from(bytes).ok()?;
    Some(channel.items().iter().map(|i| FeedItem {
        link: i.link().map(String::from),
        title: i.title().map(String::from),
        vote: i.extensions().get(prefix).and_then(|m| m.get(name)).and_then(|e| e.first())
            .and_then(|e| e.value()).map(String::from),
        description: i.description().map(String::from),
    }).collect())
}

/// The items of a pouet.net comment feed, whose votes stand in `pouet:vote` elements.
pub open spec fn comment_feed(bytes: Seq<u8>) -> Option<Seq<FeedItemView>> {
    rss_items(bytes, "pouet"@, "vote"@)
}

/// The first `n` items of a feed, or all of them where it holds fewer.
pub open spec fn correlated<T>(feed: Seq<T>, n: nat) -> Seq<T> {
    if n <= feed.len() {
        feed.subrange(0, n as int)
    } else {
        feed
    }
}

/// The `n` newest comments of a newest-first feed: the ones taken to have come with `n` new
/// votes. A shorter feed is given whole.
pub fn correlate(feed: Vec<FeedItem>, n: usize) -> (r: Vec<FeedItem>)
    ensures
        r@ == correlated(feed@, n as nat),
        r@.len() == if n <= feed@.len() { n as int } else { feed@.len() as int },
        r@.is_prefix_of(feed@),
{
    let mut r = feed;
    r.truncate(n);
    assert(r@ =~= correlated(feed@, n as nat));
    r
}

/// The `n` newest comments of a pouet.net comment feed delivered as RSS; `None` where the bytes
/// are not an RSS document.
pub fn newest_comments(bytes: &[u8], n: usize) -> (r: Option<Vec<FeedItem>>)
    ensures
        r.is_some() == comment_feed(bytes@).is_some(),
        r.is_some() ==> r.unwrap()@.map_values(|i: FeedItem| i@) == correlated(
            comment_feed(bytes@).unwrap(),
            n as nat,
        ),
{
    match read_rss(bytes, "pouet", "vote") {
        Some(feed) => {
            let ghost all = feed@;
            let r = correlate(feed, n);
            assert(r@.map_values(|i: FeedItem| i@) =~= correlated(
                all.map_values(|i: FeedItem| i@),
                n as nat,
            ));
            Some(r)
        },
        None => None,
    }
}

} // verus!
