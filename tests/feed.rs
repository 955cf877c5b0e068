use homedash::cache::FeedCache;
use homedash::common::{Channel, Item};
use homedash::feed::{
    parse_feed, ChannelModel, FeedRefresh, FetchError, RefreshAction, RefreshEvent,
};
use homedash::monitor::StoreError;

fn rss_doc(title: &str, link: &str, items: &[(&str, &str)]) -> Vec<u8> {
    let mut s = String::new();
    s.push_str("<?xml version=\"1.0\"?><rss version=\"2.0\"><channel>");
    s.push_str(&format!("<title>{}</title><link>{}</link><description>d</description>", title, link));
    for (t, l) in items {
        s.push_str(&format!("<item><title>{}</title><link>{}</link></item>", t, l));
    }
    s.push_str("</channel></rss>");
    s.into_bytes()
}

fn channel(id: u128, url: &str) -> ChannelModel {
    ChannelModel { id, name: format!("feed{}", id), url: url.to_string() }
}

fn timeout() -> FetchError {
    FetchError { message: "operation timed out".to_string() }
}

fn titles(c: &Channel) -> Vec<String> {
    c.items().iter().map(|i| i.title().clone().unwrap()).collect()
}

#[test]
fn parse_feed_reads_title_link_and_items_in_order() {
    let doc = rss_doc("News", "http://example/", &[("a", "http://example/a"), ("b", "http://example/b")]);
    let c = parse_feed(&doc).expect("well-formed feed");
    assert_eq!(c.name(), "News");
    assert_eq!(c.link(), "http://example/");
    assert_eq!(titles(&c), vec!["a".to_string(), "b".to_string()]);
    assert_eq!(c.items()[1].link().as_deref(), Some("http://example/b"));
}

#[test]
fn parse_feed_rejects_malformed_document() {
    assert!(parse_feed(b"<html><body>nope</body></html>").is_none());
    assert!(parse_feed(b"").is_none());
}

#[test]
fn item_without_title_keeps_none() {
    let doc = b"<rss version=\"2.0\"><channel><title>T</title><link>L</link><item><link>x</link></item></channel></rss>";
    let c = parse_feed(doc).unwrap();
    assert_eq!(c.items().len(), 1);
    assert!(c.items()[0].title().is_none());
    assert_eq!(c.items()[0].link().as_deref(), Some("x"));
}

#[test]
fn one_channel_succeeds_one_fails() {
    let mut r = FeedRefresh::new();
    assert!(matches!(r.step(RefreshEvent::Tick), RefreshAction::LoadRoster));
    let a = r.step(RefreshEvent::Roster(Ok(vec![channel(1, "http://example/ok.xml"), channel(2, "http://example/feed.xml")])));
    match a {
        RefreshAction::Fetch { id, url } => {
            assert_eq!(id, 1);
            assert_eq!(url, "http://example/ok.xml");
        }
        other => panic!("expected a fetch, got {:?}", other),
    }
    let doc = rss_doc("Ok", "http://example/", &[("one", "1"), ("two", "2"), ("three", "3")]);
    let a = r.step(RefreshEvent::Fetched(Ok(doc)));
    assert!(matches!(a, RefreshAction::Fetch { id: 2, .. }));
    let a = r.step(RefreshEvent::Fetched(Err(timeout())));
    assert!(matches!(a, RefreshAction::Sleep));
    let all = r.cache().read_all();
    assert_eq!(all.len(), 1);
    assert_eq!(titles(all[0]), vec!["one".to_string(), "two".to_string(), "three".to_string()]);
}

#[test]
fn timed_out_channel_has_no_snapshot() {
    let mut r = FeedRefresh::new();
    r.step(RefreshEvent::Tick);
    r.step(RefreshEvent::Roster(Ok(vec![channel(9, "http://example/feed.xml")])));
    assert!(matches!(r.step(RefreshEvent::Fetched(Err(timeout()))), RefreshAction::Sleep));
    assert!(r.cache().read_snapshot(9).is_none());
    assert_eq!(r.cache().read_all().len(), 0);
}

#[test]
fn failed_fetch_drops_previous_snapshot() {
    let mut r = FeedRefresh::new();
    r.step(RefreshEvent::Tick);
    r.step(RefreshEvent::Roster(Ok(vec![channel(3, "http://example/feed.xml")])));
    r.step(RefreshEvent::Fetched(Ok(rss_doc("T", "L", &[("x", "y")]))));
    assert!(r.cache().read_snapshot(3).is_some());
    r.step(RefreshEvent::Tick);
    r.step(RefreshEvent::Roster(Ok(vec![channel(3, "http://example/feed.xml")])));
    r.step(RefreshEvent::Fetched(Err(timeout())));
    assert!(r.cache().read_snapshot(3).is_none());
}

#[test]
fn parse_failure_drops_channel() {
    let mut r = FeedRefresh::new();
    r.step(RefreshEvent::Tick);
    r.step(RefreshEvent::Roster(Ok(vec![channel(4, "http://example/bad.xml")])));
    r.step(RefreshEvent::Fetched(Ok(b"not a feed".to_vec())));
    assert!(r.cache().read_snapshot(4).is_none());
}

#[test]
fn cache_is_empty_between_clear_and_first_insert() {
    let mut r = FeedRefresh::new();
    r.step(RefreshEvent::Tick);
    r.step(RefreshEvent::Roster(Ok(vec![channel(1, "u1"), channel(2, "u2")])));
    r.step(RefreshEvent::Fetched(Ok(rss_doc("A", "a", &[]))));
    r.step(RefreshEvent::Fetched(Ok(rss_doc("B", "b", &[]))));
    assert_eq!(r.cache().read_all().len(), 2);
    r.step(RefreshEvent::Tick);
    assert_eq!(r.cache().read_all().len(), 0);
    r.step(RefreshEvent::Roster(Ok(vec![channel(1, "u1"), channel(2, "u2")])));
    assert_eq!(r.cache().read_all().len(), 0);
    r.step(RefreshEvent::Fetched(Ok(rss_doc("A", "a", &[]))));
    assert_eq!(r.cache().read_all().len(), 1);
}

#[test]
fn roster_failure_aborts_the_refresh() {
    let mut r = FeedRefresh::new();
    r.step(RefreshEvent::Tick);
    let err = StoreError { message: "no pool".to_string() };
    match r.step(RefreshEvent::Roster(Err(err))) {
        RefreshAction::Abort(e) => assert_eq!(e.message, "no pool"),
        other => panic!("expected an abort, got {:?}", other),
    }
    assert!(matches!(r.step(RefreshEvent::Fetched(Err(timeout()))), RefreshAction::Sleep));
    assert!(matches!(r.pending(), RefreshAction::Sleep));
}

#[test]
fn cache_insert_replaces_and_keeps_first_order() {
    let mut c = FeedCache::new();
    c.insert(5, Channel::new("five".to_string(), "l5".to_string(), vec![]));
    c.insert(2, Channel::new("two".to_string(), "l2".to_string(), vec![]));
    c.insert(5, Channel::new("FIVE".to_string(), "l5".to_string(), vec![Item::new(None, None)]));
    assert_eq!(c.len(), 2);
    let all = c.read_all();
    assert_eq!(all[0].name(), "FIVE");
    assert_eq!(all[1].name(), "two");
    assert_eq!(c.read_snapshot(5).unwrap().items().len(), 1);
    c.clear();
    assert_eq!(c.len(), 0);
    assert!(c.read_snapshot(2).is_none());
}
