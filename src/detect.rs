//! Deciding, from a freshly fetched prod and its snapshot, whether votes have come in.
use crate::model::Prod;
use vstd::prelude::*;

verus! {

/// What a poll of one prod found.
#[derive(PartialEq, Eq, Structural, Clone, Copy, Debug)]
pub enum Outcome {
    /// No snapshot of the prod was kept: keep one, and tell nobody.
    FirstSeen,
    /// The vote total is that of the snapshot: keep the new snapshot, and tell nobody.
    NoChange,
    /// The vote total moved; `gained` votes came in (none, where it went down).
    Changed { gained: usize },
}

/// The vote total of a snapshot, where there is one.
pub open spec fn cached_votes(cached: Option<&Prod>) -> Option<nat> {
    match cached {
        Some(p) => Some(p.votes()),
        None => None,
    }
}

/// The outcome for a prod with `current` votes, whose snapshot had `cached` votes.
pub open spec fn outcome_of(current: nat, cached: Option<nat>) -> Outcome {
    match cached {
        None => Outcome::FirstSeen,
        Some(c) => if current == c {
            Outcome::NoChange
        } else if current > c {
            Outcome::Changed { gained: (current - c) as usize }
        } else {
            Outcome::Changed { gained: 0 }
        },
    }
}

impl Outcome {
    /// How many comments to fetch: only where votes were gained.
    pub open spec fn feed_request_of(self) -> Option<usize> {
        match self {
            Outcome::Changed { gained } => if gained > 0 {
                Some(gained)
            } else {
                None
            },
            _ => None,
        }
    }

    pub open spec fn notifies_of(self) -> bool {
        self is Changed
    }

    /// The number of newest comments to fetch and report, or `None` where the feed is not
    /// to be fetched at all.
    pub fn feed_request(&self) -> (r: Option<usize>)
        ensures
            r == self.feed_request_of(),
    {
        match self {
            Outcome::Changed { gained } => if *gained > 0 {
                Some(*gained)
            } else {
                None
            },
            _ => None,
        }
    }

    /// Whether a notification is owed.
    pub fn notifies(&self) -> (r: bool)
        ensures
            r == self.notifies_of(),
    {
        match self {
            Outcome::Changed { .. } => true,
            _ => false,
        }
    }
}

/// Compares a freshly fetched prod with its snapshot, if one was kept.
pub fn detect(current: &Prod, cached: Option<&Prod>) -> (r: Outcome)
    requires
        current.votes_valid(),
        cached matches Some(c) ==> c.votes_valid(),
    ensures
        r == outcome_of(current.votes(), cached_votes(cached)),
{
    match cached {
        None => Outcome::FirstSeen,
        Some(c) => {
            let now = current.vote_count();
            let before = c.vote_count();
            if now == before {
                Outcome::NoChange
            } else if now > before {
                Outcome::Changed { gained: now - before }
            } else {
                Outcome::Changed { gained: 0 }
            }
        },
    }
}

/// A prod whose counters equal those of its snapshot is unchanged: no notification, and no
/// comment feed fetched.
pub proof fn lemma_equal_counters_unchanged(current: Prod, cached: Prod)
    requires
        current.voteup@ == cached.voteup@,
        current.votepig@ == cached.votepig@,
        current.votedown@ == cached.votedown@,
    ensures
        outcome_of(current.votes(), cached_votes(Some(&cached))) == Outcome::NoChange,
        outcome_of(current.votes(), cached_votes(Some(&cached))).feed_request_of() is None,
        !outcome_of(current.votes(), cached_votes(Some(&cached))).notifies_of(),
{
}

/// A prod without a snapshot is first seen, whatever it holds: no notification, and no
/// comment feed fetched.
pub proof fn lemma_no_snapshot_first_seen(current: Prod)
    ensures
        outcome_of(current.votes(), cached_votes(None)) == Outcome::FirstSeen,
        outcome_of(current.votes(), cached_votes(None)).feed_request_of() is None,
        !outcome_of(current.votes(), cached_votes(None)).notifies_of(),
{
}

/// Where the vote total rose by `d`, the `d` newest comments are asked for, and a
/// notification is owed.
pub proof fn lemma_gain_requests_comments(current: Prod, cached: Prod)
    requires
        current.votes_valid(),
        cached.votes_valid(),
        current.votes() > cached.votes(),
    ensures
        outcome_of(current.votes(), cached_votes(Some(&cached))).feed_request_of() == Some(
            (current.votes() - cached.votes()) as usize,
        ),
        outcome_of(current.votes(), cached_votes(Some(&cached))).notifies_of(),
{
}

} // verus!
