//! The prod record as the pouet.net API describes it.
use crate::decimal::{count_value, is_count_text, parse_count, render_i64, signed_text};
use std::collections::HashMap;
use vstd::prelude::*;

verus! {

/// serde_json::Value, carried unread in a prod's list of awards.
#[verifier::external_type_specification]
#[verifier::external_body]
pub struct ExJsonValue(serde_json::Value);

pub struct Platform {
    pub name: String,
    pub icon: String,
    pub slug: String,
}

pub struct Party {
    pub id: String,
    pub name: String,
    pub web: String,
}

pub struct Placing {
    pub party: Party,
    pub compo: String,
    pub ranking: String,
    pub year: String,
    pub compo_name: String,
}

pub struct Group {
    pub id: String,
    pub name: String,
    pub web: String,
    pub added_user: String,
    pub added_date: String,
    pub acronym: String,
}

pub struct User {
    pub id: String,
    pub nickname: String,
    pub level: String,
    pub permission_submit_items: Option<String>,
    pub permission_post_bbs: Option<String>,
    pub avatar: String,
    pub glops: String,
    pub register_date: String,
}

pub struct DownloadLink {
    pub _type: String,
    pub link: String,
}

pub struct Credit {
    pub user: User,
    pub role: String,
}

/// A prod as the API returns it. The three vote counters arrive as decimal text.
pub struct Prod {
    pub types: Vec<String>,
    pub platforms: HashMap<String, Platform>,
    pub placings: Vec<Placing>,
    pub groups: Vec<Group>,
    pub awards: Vec<serde_json::Value>,
    pub id: String,
    pub name: String,
    pub _type: String,
    pub added_user: String,
    pub added_date: String,
    pub release_date: String,
    pub voteup: String,
    pub votepig: String,
    pub votedown: String,
    pub voteavg: String,
    pub download: String,
    pub party_compo: String,
    pub party_place: String,
    pub party_year: String,
    pub party: Party,
    pub addeduser: User,
    pub sceneorg: String,
    pub demozoo: Option<String>,
    pub csdb: String,
    pub zxdemo: String,
    pub invitation: Option<String>,
    pub invitationyear: String,
    pub board_id: Option<String>,
    pub rank: String,
    pub cdc: i64,
    pub download_links: Vec<DownloadLink>,
    pub screenshot: String,
    pub party_compo_name: String,
    pub credits: Vec<Credit>,
}

/// The rendering of a prod's counters: `[voteup: U, votepig: P, votedown: D, cdc: C]`.
pub open spec fn vote_text(
    voteup: Seq<char>,
    votepig: Seq<char>,
    votedown: Seq<char>,
    cdc: int,
) -> Seq<char> {
    "[voteup: "@ + voteup + ", votepig: "@ + votepig + ", votedown: "@ + votedown + ", cdc: "@
        + signed_text(cdc) + "]"@
}

impl Prod {
    /// All three counters are counter texts, and their sum fits a `usize`.
    pub open spec fn votes_valid(&self) -> bool {
        &&& is_count_text(self.voteup@)
        &&& is_count_text(self.votepig@)
        &&& is_count_text(self.votedown@)
        &&& self.votes() <= usize::MAX
    }

    /// The sum of the three vote counters: the quantity that changes are measured by.
    pub open spec fn votes(&self) -> nat {
        count_value(self.voteup@) + count_value(self.votepig@) + count_value(self.votedown@)
    }

    pub open spec fn vote_text(&self) -> Seq<char> {
        vote_text(self.voteup@, self.votepig@, self.votedown@, self.cdc as int)
    }

    /// Whether the counters can be summed, so that `vote_count` may be called.
    pub fn has_valid_votes(&self) -> (r: bool)
        ensures
            r == self.votes_valid(),
    {
        match (
            parse_count(self.voteup.as_str()),
            parse_count(self.votepig.as_str()),
            parse_count(self.votedown.as_str()),
        ) {
            (Some(u), Some(p), Some(d)) => u <= usize::MAX - p && u + p <= usize::MAX - d,
            _ => false,
        }
    }

    /// The total number of votes: up, pig and down together.
    pub fn vote_count(&self) -> (r: usize)
        requires
            self.votes_valid(),
        ensures
            r as nat == self.votes(),
    {
        let u = parse_count(self.voteup.as_str()).unwrap();
        let p = parse_count(self.votepig.as_str()).unwrap();
        let d = parse_count(self.votedown.as_str()).unwrap();
        u + p + d
    }

    /// The counters as text, for a notification.
    pub fn vote_string(&self) -> (r: String)
        ensures
            r@ == self.vote_text(),
    {
        let mut r = String::from_str("[voteup: ");
        r.append(self.voteup.as_str());
        r.append(", votepig: ");
        r.append(self.votepig.as_str());
        r.append(", votedown: ");
        r.append(self.votedown.as_str());
        r.append(", cdc: ");
        let cdc = render_i64(self.cdc);
        r.append(cdc.as_str());
        r.append("]");
        r
    }
}

/// The API's envelope around a prod; also the form in which a snapshot is kept.
pub struct ProdResponse {
    pub success: bool,
    pub prod: Prod,
}

/// The client through which prods and their comment feeds are fetched.
pub struct PouetAPIClient {}

impl PouetAPIClient {
    pub fn new() -> (r: Self) {
        PouetAPIClient {}
    }
}

} // verus!
