use prodbot::compose::{compose, notification};
use prodbot::decimal::{parse_count, render_i64, render_u64};
use prodbot::detect::{detect, Outcome};
use prodbot::feed::{correlate, newest_comments, FeedItem};
use prodbot::model::{Party, PouetAPIClient, Prod, ProdResponse, User};
use std::collections::HashMap;

fn party() -> Party {
    Party { id: String::new(), name: String::new(), web: String::new() }
}

fn user() -> User {
    User {
        id: "1".to_string(),
        nickname: "someone".to_string(),
        level: "user".to_string(),
        permission_submit_items: None,
        permission_post_bbs: None,
        avatar: String::new(),
        glops: "0".to_string(),
        register_date: String::new(),
    }
}

fn prod(name: &str, up: &str, pig: &str, down: &str) -> Prod {
    Prod {
        types: vec!["demo".to_string()],
        platforms: HashMap::new(),
        placings: Vec::new(),
        groups: Vec::new(),
        awards: Vec::new(),
        id: "12345".to_string(),
        name: name.to_string(),
        _type: "demo".to_string(),
        added_user: String::new(),
        added_date: String::new(),
        release_date: String::new(),
        voteup: up.to_string(),
        votepig: pig.to_string(),
        votedown: down.to_string(),
        voteavg: "0".to_string(),
        download: String::new(),
        party_compo: String::new(),
        party_place: String::new(),
        party_year: String::new(),
        party: party(),
        addeduser: user(),
        sceneorg: String::new(),
        demozoo: None,
        csdb: String::new(),
        zxdemo: String::new(),
        invitation: None,
        invitationyear: String::new(),
        board_id: None,
        rank: "1".to_string(),
        cdc: 0,
        download_links: Vec::new(),
        screenshot: String::new(),
        party_compo_name: String::new(),
        credits: Vec::new(),
    }
}

fn rss_with(count: usize) -> Vec<u8> {
    let mut items = String::new();
    for k in 0..count {
        items.push_str(&format!(
            "<item><title>comment {k}</title><link>https://www.pouet.net/c/{k}</link>\
             <description>text {k}</description><pouet:vote>rulez</pouet:vote></item>"
        ));
    }
    format!(
        "<?xml version=\"1.0\"?><rss version=\"2.0\" xmlns:pouet=\"https://www.pouet.net/\">\
         <channel><title>comments</title><link>https://www.pouet.net</link>\
         <description>last comments</description>{items}</channel></rss>"
    )
    .into_bytes()
}

fn item(k: usize) -> FeedItem {
    FeedItem {
        link: Some(format!("l{k}")),
        title: Some(format!("t{k}")),
        vote: None,
        description: Some(format!("d{k}")),
    }
}

#[test]
fn scenario_first_seen() {
    let current = prod("Foo", "5", "1", "0");
    let outcome = detect(&current, None);
    assert_eq!(outcome, Outcome::FirstSeen);
    assert_eq!(outcome.feed_request(), None);
    assert!(!outcome.notifies());
    assert!(notification(12345, &current, None, &Vec::new()).is_none());
}

#[test]
fn scenario_no_change() {
    let cached = prod("Foo", "5", "1", "0");
    let current = prod("Foo", "5", "1", "0");
    let outcome = detect(&current, Some(&cached));
    assert_eq!(outcome, Outcome::NoChange);
    assert_eq!(outcome.feed_request(), None);
    assert!(notification(12345, &current, Some(&cached), &Vec::new()).is_none());
}

#[test]
fn scenario_changed_reports_three_newest() {
    let cached = prod("Foo", "5", "1", "0");
    let current = prod("Foo", "7", "2", "0");
    let outcome = detect(&current, Some(&cached));
    assert_eq!(outcome, Outcome::Changed { gained: 3 });
    let n = outcome.feed_request().unwrap();
    assert_eq!(n, 3);
    let comments = newest_comments(&rss_with(5), n).unwrap();
    assert_eq!(comments.len(), 3);
    for (k, c) in comments.iter().enumerate() {
        assert_eq!(c.title, Some(format!("comment {k}")));
    }
    let text = notification(12345, &current, Some(&cached), &comments).unwrap();
    assert_eq!(
        text,
        "Prod <https://www.pouet.net/prod.php?which=12345|Foo> now has \
         [voteup: 7, votepig: 2, votedown: 0, cdc: 0] up from \
         [voteup: 5, votepig: 1, votedown: 0, cdc: 0]\n\
         \n<https://www.pouet.net/c/0|comment 0> [rulez] text 0\
         \n<https://www.pouet.net/c/1|comment 1> [rulez] text 1\
         \n<https://www.pouet.net/c/2|comment 2> [rulez] text 2"
    );
}

#[test]
fn scenario_short_feed_gives_what_it_has() {
    let comments = newest_comments(&rss_with(1), 3).unwrap();
    assert_eq!(comments.len(), 1);
    assert_eq!(comments[0].link, Some("https://www.pouet.net/c/0".to_string()));
    assert_eq!(comments[0].vote, Some("rulez".to_string()));
    assert_eq!(comments[0].description, Some("text 0".to_string()));
}

#[test]
fn feed_that_is_not_rss_is_refused() {
    assert!(newest_comments(b"not a feed", 2).is_none());
}

#[test]
fn feed_without_extension_has_no_vote() {
    let doc = "<rss version=\"2.0\"><channel><title>c</title><link>x</link><description>d\
               </description><item><title>t</title></item></channel></rss>";
    let comments = newest_comments(doc.as_bytes(), 1).unwrap();
    assert_eq!(comments.len(), 1);
    assert_eq!(comments[0].title, Some("t".to_string()));
    assert_eq!(comments[0].vote, None);
    assert_eq!(comments[0].link, None);
}

#[test]
fn votes_going_down_notify_without_comments() {
    let cached = prod("Foo", "5", "1", "0");
    let current = prod("Foo", "4", "1", "0");
    let outcome = detect(&current, Some(&cached));
    assert_eq!(outcome, Outcome::Changed { gained: 0 });
    assert_eq!(outcome.feed_request(), None);
    assert!(outcome.notifies());
    let text = notification(7, &current, Some(&cached), &Vec::new()).unwrap();
    assert!(text.ends_with("[voteup: 5, votepig: 1, votedown: 0, cdc: 0]\n"));
}

#[test]
fn correlate_keeps_newest_prefix() {
    let feed: Vec<FeedItem> = (0..4).map(item).collect();
    let r = correlate(feed, 2);
    assert_eq!(r.len(), 2);
    assert_eq!(r[0].link, Some("l0".to_string()));
    assert_eq!(r[1].link, Some("l1".to_string()));
}

#[test]
fn correlate_zero_is_empty() {
    let feed: Vec<FeedItem> = (0..4).map(item).collect();
    assert!(correlate(feed, 0).is_empty());
}

#[test]
fn correlate_short_feed_whole() {
    let feed: Vec<FeedItem> = (0..2).map(item).collect();
    let r = correlate(feed, 10);
    assert_eq!(r.len(), 2);
    assert_eq!(r[1].title, Some("t1".to_string()));
}

#[test]
fn compose_without_snapshot_uses_placeholder() {
    let current = prod("Bar", "1", "0", "0");
    let comments = vec![FeedItem { link: None, title: Some("hi".to_string()), vote: None, description: None }];
    let text = compose(42, &current, None, &comments);
    assert_eq!(
        text,
        "Prod <https://www.pouet.net/prod.php?which=42|Bar> now has \
         [voteup: 1, votepig: 0, votedown: 0, cdc: 0] up from [no cached value]\n\n<|hi> [] "
    );
}

#[test]
fn vote_count_sums_counters() {
    assert_eq!(prod("p", "7", "2", "0").vote_count(), 9);
    assert_eq!(prod("p", "+3", "0", "10").vote_count(), 13);
}

#[test]
fn vote_string_renders_negative_cdc() {
    let mut p = prod("p", "1", "2", "3");
    p.cdc = -4;
    assert_eq!(p.vote_string(), "[voteup: 1, votepig: 2, votedown: 3, cdc: -4]");
}

#[test]
fn invalid_counters_are_detected() {
    assert!(prod("p", "1", "2", "3").has_valid_votes());
    assert!(!prod("p", "", "2", "3").has_valid_votes());
    assert!(!prod("p", "1", "x", "3").has_valid_votes());
    assert!(!prod("p", "1", "2", "-3").has_valid_votes());
    let max = usize::MAX.to_string();
    assert!(prod("p", &max, "0", "0").has_valid_votes());
    assert!(!prod("p", &max, "1", "0").has_valid_votes());
}

#[test]
fn parse_count_cases() {
    assert_eq!(parse_count("0"), Some(0));
    assert_eq!(parse_count("42"), Some(42));
    assert_eq!(parse_count("+7"), Some(7));
    assert_eq!(parse_count("007"), Some(7));
    assert_eq!(parse_count(""), None);
    assert_eq!(parse_count("+"), None);
    assert_eq!(parse_count("4a"), None);
    assert_eq!(parse_count(" 4"), None);
    assert_eq!(parse_count(&usize::MAX.to_string()), Some(usize::MAX));
    assert_eq!(parse_count("99999999999999999999999"), None);
}

#[test]
fn parse_count_agrees_with_std() {
    for s in ["0", "12", "+5", "", "-1", "1_0", "18446744073709551615", "18446744073709551616"] {
        assert_eq!(parse_count(s), s.parse::<usize>().ok(), "{s}");
    }
}

#[test]
fn render_integers() {
    assert_eq!(render_u64(0), "0");
    assert_eq!(render_u64(12345), "12345");
    assert_eq!(render_u64(u64::MAX), u64::MAX.to_string());
    assert_eq!(render_i64(-17), "-17");
    assert_eq!(render_i64(i64::MIN), i64::MIN.to_string());
    assert_eq!(render_i64(i64::MAX), i64::MAX.to_string());
}

#[test]
fn response_wraps_prod() {
    let r = ProdResponse { success: true, prod: prod("Foo", "5", "1", "0") };
    let _client = PouetAPIClient::new();
    assert!(r.success);
    assert_eq!(r.prod.vote_count(), 6);
}
