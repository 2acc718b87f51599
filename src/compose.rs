//! The text of a notification about new votes on a prod.
use crate::decimal::{decimal_text, render_u64};
use crate::detect::{cached_votes, detect, outcome_of, Outcome};
use crate::feed::{FeedItem, FeedItemView};
use crate::model::Prod;
use vstd::prelude::*;

verus! {

pub open spec fn text_or_empty(s: Option<Seq<char>>) -> Seq<char> {
    match s {
        Some(t) => t,
        None => Seq::empty(),
    }
}

/// One comment's line: `\n<link|title> [vote] description`, a missing field left empty.
pub open spec fn comment_line(i: FeedItemView) -> Seq<char> {
    "\n<"@ + text_or_empty(i.0) + "|"@ + text_or_empty(i.1) + "> ["@ + text_or_empty(i.2)
        + "] "@ + text_or_empty(i.3)
}

/// The lines of the comments, in their order.
pub open spec fn comments_text(items: Seq<FeedItemView>) -> Seq<char>
    decreases items.len(),
{
    if items.len() == 0 {
        Seq::empty()
    } else {
        comments_text(items.drop_last()) + comment_line(items.last())
    }
}

/// The counters of the snapshot, or a placeholder where none was kept.
pub open spec fn prior_text(cached: Option<&Prod>) -> Seq<char> {
    match cached {
        Some(p) => p.vote_text(),
        None => "[no cached value]"@,
    }
}

/// The whole notification: a link to the prod, its name, its counters now and before, and
/// one line per comment.
pub open spec fn message_text(
    id: nat,
    name: Seq<char>,
    now: Seq<char>,
    before: Seq<char>,
    comments: Seq<FeedItemView>,
) -> Seq<char> {
    "Prod <https://www.pouet.net/prod.php?which="@ + decimal_text(id) + "|"@ + name
        + "> now has "@ + now + " up from "@ + before + "\n"@ + comments_text(comments)
}

pub open spec fn item_views(items: Seq<FeedItem>) -> Seq<FeedItemView> {
    items.map_values(|i: FeedItem| i@)
}

fn append_optional(r: &mut String, s: &Option<String>)
    ensures
        final(r)@ == old(r)@ + text_or_empty(crate::feed::optional_text(*s)),
{
    match s {
        Some(t) => r.append(t.as_str()),
        None => {},
    }
}

fn append_comment_line(r: &mut String, item: &FeedItem)
    ensures
        final(r)@ == old(r)@ + comment_line(item@),
{
    r.append("\n<");
    append_optional(r, &item.link);
    r.append("|");
    append_optional(r, &item.title);
    r.append("> [");
    append_optional(r, &item.vote);
    r.append("] ");
    append_optional(r, &item.description);
    assert(r@ =~= old(r)@ + comment_line(item@));
}

/// Renders the notification for prod `id` from the prod now, its snapshot if one was kept,
/// and the comments to report, newest first.
pub fn compose(id: usize, current: &Prod, cached: Option<&Prod>, comments: &Vec<FeedItem>) -> (r:
    String)
    ensures
        r@ == message_text(
            id as nat,
            current.name@,
            current.vote_text(),
            prior_text(cached),
            item_views(comments@),
        ),
{
    let mut r = String::from_str("Prod <https://www.pouet.net/prod.php?which=");
    let digits = render_u64(id as u64);
    r.append(digits.as_str());
    r.append("|");
    r.append(current.name.as_str());
    r.append("> now has ");
    let now = current.vote_string();
    r.append(now.as_str());
    r.append(" up from ");
    match cached {
        Some(p) => {
            let before = p.vote_string();
            r.append(before.as_str());
        },
        None => r.append("[no cached value]"),
    }
    r.append("\n");
    let ghost head = r@;
    let ghost views = item_views(comments@);
    let mut i: usize = 0;
    while i < comments.len()
        invariant
            i <= comments@.len(),
            views == item_views(comments@),
            r@ == head + comments_text(views.subrange(0, i as int)),
        decreases comments@.len() - i,
    {
        let item = &comments[i];
        append_comment_line(&mut r, item);
        proof {
            let next = views.subrange(0, i + 1);
            assert(next.drop_last() =~= views.subrange(0, i as int));
        }
        i = i + 1;
    }
    assert(views.subrange(0, comments@.len() as int) =~= views);
    r
}

/// The notification owed for prod `id`, if any: one is owed only where the vote total moved
/// against a kept snapshot. `comments` are those to report, newest first.
pub fn notification(
    id: usize,
    current: &Prod,
    cached: Option<&Prod>,
    comments: &Vec<FeedItem>,
) -> (r: Option<String>)
    requires
        current.votes_valid(),
        cached matches Some(c) ==> c.votes_valid(),
    ensures
        r.is_some() == outcome_of(current.votes(), cached_votes(cached)).notifies_of(),
        r.is_some() ==> r.unwrap()@ == message_text(
            id as nat,
            current.name@,
            current.vote_text(),
            prior_text(cached),
            item_views(comments@),
        ),
{
    let outcome = detect(current, cached);
    if outcome.notifies() {
        Some(compose(id, current, cached, comments))
    } else {
        None
    }
}

} // verus!
