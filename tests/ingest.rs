use speedwagon::api::{Resp, UserLogin};
use speedwagon::article::Article;
use speedwagon::dedup::{duplicates_stored, match_filters, Filter};
use speedwagon::error_log::{format_fetch_error, push_fetch_error, MAX_FETCH_ERRORS};
use speedwagon::fetch::{fetch_new_from_source, settle_fetch, FetchError};
use speedwagon::rssatom::RSSAtom;
use speedwagon::sources::{get_for_fetch, Source, SourceData};
use speedwagon::timestamp::Timestamp;

const FEED: u128 = 42;

fn entry(
    id_from_source: Option<&str>,
    title: Option<&str>,
    links: &[&str],
    summary: Option<&str>,
    content: Option<&str>,
) -> Article {
    Article {
        id: 1,
        title: title.map(String::from),
        published: None,
        source_info: vec![],
        summary: summary.map(String::from),
        content: content.map(String::from),
        rights: None,
        links: links.iter().map(|s| s.to_string()).collect(),
        authors: vec![],
        categories: vec![],
        comments_url: None,
        extensions: "{}".to_string(),
        source: FEED,
        id_from_source: id_from_source.map(String::from),
    }
}

fn at(sec: i64) -> Timestamp {
    Timestamp { sec, nsec: 0 }
}

fn source(id: u128, fetching: bool, last_success: i64, last_started: i64) -> Source {
    Source {
        id,
        title: format!("source {}", id),
        source_data: SourceData::RSSAtom(RSSAtom { url: "http://example.com/feed".to_string(), source_id: id }),
        post_filter: String::new(),
        last_post: at(0),
        last_successful_fetch: at(last_success),
        fetch_errors: vec![],
        creator: "alice".to_string(),
        fetching,
        last_fetch_started: at(last_started),
    }
}

#[test]
fn error_log_keeps_latest_ten_in_order() {
    let mut log: Vec<String> = Vec::new();
    for i in 0..12 {
        push_fetch_error(&mut log, format!("e{}", i));
        assert!(log.len() <= MAX_FETCH_ERRORS);
    }
    let expected: Vec<String> = (2..12).map(|i| format!("e{}", i)).collect();
    assert_eq!(log, expected);
}

#[test]
fn error_log_below_bound_keeps_everything() {
    let mut log = vec!["a".to_string()];
    push_fetch_error(&mut log, "b".to_string());
    assert_eq!(log, vec!["a".to_string(), "b".to_string()]);
}

#[test]
fn error_record_text() {
    let r = format_fetch_error(&at(1332427998), "connection refused");
    assert_eq!(r, "Thu, 22 Mar 2012 14:53:18 GMT: connection refused");
}

#[test]
fn duplicate_by_id_and_title() {
    let stored = vec![entry(Some("g1"), Some("Hello"), &[], None, Some("old body"))];
    let candidate = entry(Some("g1"), Some("Hello"), &[], Some("new summary"), Some("new body"));
    assert!(duplicates_stored(&candidate, &stored, FEED));
    let rss = RSSAtom { url: String::new(), source_id: FEED };
    let mut articles = vec![candidate];
    rss.unique(&mut articles, &stored);
    assert!(articles.is_empty());
}

#[test]
fn same_id_other_fields_differ_is_novel() {
    let stored = vec![entry(Some("g1"), Some("Hello"), &["http://a/"], Some("s"), Some("c"))];
    let candidate = entry(Some("g1"), Some("Goodbye"), &["http://b/"], Some("t"), Some("d"));
    assert!(!duplicates_stored(&candidate, &stored, FEED));
}

#[test]
fn duplicate_needs_same_source() {
    let mut other = entry(Some("g1"), Some("Hello"), &[], None, None);
    other.source = FEED + 1;
    let candidate = entry(Some("g1"), Some("Hello"), &[], None, None);
    assert!(!duplicates_stored(&candidate, &vec![other], FEED));
}

#[test]
fn query_takes_first_two_signals() {
    let a = entry(Some("g"), Some("t"), &["http://l/"], Some("s"), Some("c"));
    let f = match_filters(&a);
    assert_eq!(f.len(), 2);
    assert!(matches!(&f[0], Filter::IdFromSource(s) if s == "g"));
    assert!(matches!(&f[1], Filter::Links(l) if l == &vec!["http://l/".to_string()]));
}

#[test]
fn query_falls_back_to_content() {
    let a = entry(None, None, &[], Some("s"), Some("c"));
    let f = match_filters(&a);
    assert_eq!(f.len(), 2);
    assert!(matches!(&f[0], Filter::Summary(s) if s == "s"));
    assert!(matches!(&f[1], Filter::Content(Some(c)) if c == "c"));
    let bare = entry(None, None, &[], None, None);
    let g = match_filters(&bare);
    assert_eq!(g.len(), 1);
    assert!(matches!(&g[0], Filter::Content(None)));
}

#[test]
fn content_alone_decides_when_no_signal() {
    let stored = vec![entry(None, Some("x"), &[], None, Some("same"))];
    assert!(duplicates_stored(&entry(None, None, &[], None, Some("same")), &stored, FEED));
    assert!(!duplicates_stored(&entry(None, None, &[], None, Some("other")), &stored, FEED));
}

#[test]
fn unique_keeps_order_of_novel_entries() {
    let stored = vec![entry(Some("g2"), Some("Two"), &[], None, None)];
    let rss = RSSAtom { url: String::new(), source_id: FEED };
    let mut articles = vec![
        entry(Some("g1"), Some("One"), &[], None, None),
        entry(Some("g2"), Some("Two"), &[], None, None),
        entry(Some("g3"), Some("Three"), &[], None, None),
    ];
    rss.unique(&mut articles, &stored);
    let ids: Vec<_> = articles.iter().map(|a| a.id_from_source.clone().unwrap()).collect();
    assert_eq!(ids, vec!["g1".to_string(), "g3".to_string()]);
}

#[test]
fn claim_takes_due_sources_only() {
    let now = at(10_000);
    let mut table = vec![
        source(1, false, 10_000 - 900, 0),
        source(2, false, 10_000 - 899, 0),
        source(3, true, 0, 10_000 - 900),
        source(4, true, 0, 10_000 - 10),
    ];
    let claimed = get_for_fetch(&mut table, now);
    assert_eq!(claimed, vec![0, 2]);
    assert!(table[0].fetching && table[0].last_fetch_started == now);
    assert!(!table[1].fetching && table[1].last_fetch_started == at(0));
    assert!(table[2].fetching && table[2].last_fetch_started == now);
    assert!(table[3].fetching && table[3].last_fetch_started == at(10_000 - 10));
}

#[test]
fn stale_lease_is_reclaimed_fresh_is_not() {
    let now = at(5_000);
    assert!(source(1, true, 0, 5_000 - 901).is_due(&now));
    assert!(!source(2, true, 0, 5_000 - 60).is_due(&now));
}

#[test]
fn simultaneous_claims_are_disjoint() {
    let mut table = vec![source(1, false, 0, 0), source(2, true, 0, 0), source(3, false, 99_999, 0)];
    let first = get_for_fetch(&mut table, at(100_000));
    let second = get_for_fetch(&mut table, at(100_001));
    assert_eq!(first, vec![0, 1]);
    assert!(second.is_empty());
}

#[test]
fn claim_with_nothing_due_is_empty() {
    let mut table = vec![source(1, false, 1_000, 0), source(2, true, 0, 1_000)];
    assert!(get_for_fetch(&mut table, at(1_100)).is_empty());
    let mut empty: Vec<Source> = vec![];
    assert!(get_for_fetch(&mut empty, at(1_100)).is_empty());
}

#[test]
fn success_releases_lease_from_claim_time() {
    let mut s = source(1, true, 0, 7_000);
    s.record_success(at(7_000));
    assert!(!s.fetching);
    assert_eq!(s.last_successful_fetch, at(7_000));
    assert_eq!(s.last_fetch_started, at(7_000));
}

#[test]
fn failure_records_and_releases() {
    let mut s = source(1, true, 0, 1332427998);
    for i in 0..11 {
        s.record_failure(&format!("boom {}", i));
    }
    assert!(!s.fetching);
    assert_eq!(s.fetch_errors.len(), MAX_FETCH_ERRORS);
    assert_eq!(s.fetch_errors[0], "Thu, 22 Mar 2012 14:53:18 GMT: boom 1");
    assert_eq!(s.fetch_errors[9], "Thu, 22 Mar 2012 14:53:18 GMT: boom 10");
}

#[test]
fn new_source_is_unleased() {
    let s = Source::new(Some(5), "t".to_string(), SourceData::RSSAtom(RSSAtom { url: "u".to_string(), source_id: 5 }), "".to_string(), "bob".to_string());
    assert_eq!(s.id, 5);
    assert!(!s.fetching);
    assert!(s.fetch_errors.is_empty());
    assert_eq!(s.creator, "bob");
    let t = Source::new(None, "t".to_string(), SourceData::RSSAtom(RSSAtom { url: "u".to_string(), source_id: 0 }), "".to_string(), "bob".to_string());
    assert!(t.id != s.id);
}

#[test]
fn transport_error_is_passed_on() {
    let s = source(1, true, 0, 0);
    let r = fetch_new_from_source(&s, Err("timed out".to_string()), &vec![]);
    match r.unwrap_err() {
        FetchError::Transport(m) => assert_eq!(m, "timed out"),
        other => panic!("unexpected error {:?}", other),
    }
}

#[test]
fn bad_payload_error_names_both_formats() {
    let s = source(1, true, 0, 0);
    let r = fetch_new_from_source(&s, Ok(b"<html></html>".to_vec()), &vec![]);
    let e = r.unwrap_err();
    assert!(matches!(&e, FetchError::Format(f) if !f.rss_error.is_empty() && !f.atom_error.is_empty()));
    let m = e.message();
    assert!(m.starts_with("RSS: ("));
    assert!(m.contains(") Atom: ("));
    assert!(m.ends_with(")"));
}

#[test]
fn fetched_duplicates_are_dropped() {
    let s = source(FEED, true, 0, 0);
    let payload = br#"<rss version="2.0"><channel><title>x</title><link>http://x/</link><description>d</description>
<item><title>Old</title><guid>g-old</guid></item>
<item><title>New</title><guid>g-new</guid></item>
</channel></rss>"#;
    let stored = vec![entry(Some("g-old"), Some("Old"), &[], None, None)];
    let fresh = fetch_new_from_source(&s, Ok(payload.to_vec()), &stored).unwrap();
    assert_eq!(fresh.len(), 1);
    assert_eq!(fresh[0].title.as_deref(), Some("New"));
    assert_eq!(fresh[0].source, FEED);
}

#[test]
fn settle_after_success_and_failure() {
    let mut s = source(1, true, 0, 2_000);
    settle_fetch(&mut s, &Ok(vec![]));
    assert!(s.fetch_errors.is_empty());
    assert!(!s.fetching);
    assert_eq!(s.last_successful_fetch, at(2_000));
    let mut f = source(2, true, 0, 1332427998);
    settle_fetch(&mut f, &Err(FetchError::Transport("refused".to_string())));
    assert!(!f.fetching);
    assert_eq!(f.last_successful_fetch, at(0));
    assert_eq!(f.fetch_errors, vec!["Thu, 22 Mar 2012 14:53:18 GMT: refused".to_string()]);
}

#[test]
fn reply_envelopes() {
    let ok = Resp::ok(3);
    assert_eq!(ok.status, "ok");
    assert_eq!(ok.contents, 3);
    let err = Resp::error("bad".to_string());
    assert_eq!(err.status, "error");
    assert_eq!(err.contents, "bad");
    let login = UserLogin { username: "u".to_string(), password: "p".to_string(), persistent: false };
    assert!(!login.persistent);
}
