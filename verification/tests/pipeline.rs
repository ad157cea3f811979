use plain_rss::content::{entry_item, resolve_entry_content, ContentError};
use plain_rss::feed::{text_content_or, Entry, Feed};
use plain_rss::opml_import::{import_outlines, Outline, OutlineDisposition};
use plain_rss::parse_config;
use plain_rss::refresh::{ingest_feed, refresh_apply, FeedOutcome, FetchedFeed};
use plain_rss::store::Store;

fn rss_outline(text: &str, url: Option<&str>) -> Outline {
    Outline {
        text: text.to_owned(),
        outline_type: Some("rss".to_owned()),
        xml_url: url.map(|u| u.to_owned()),
    }
}

#[test]
fn parse_config_ok() {
    let args = vec![
        "prog".to_owned(),
        "/tmp/db.sqlite".to_owned(),
        "/tmp/feeds.opml".to_owned(),
    ];
    let c = parse_config(&args).unwrap();
    assert_eq!(c.db_path, "/tmp/db.sqlite");
    assert_eq!(c.opml_path, "/tmp/feeds.opml");
}

#[test]
fn parse_config_too_few_arguments() {
    let args = vec!["prog".to_owned(), "/tmp/db.sqlite".to_owned()];
    match parse_config(&args) {
        Err(m) => assert_eq!(m, "Not enough arguments; db path and opml import path expected"),
        Ok(_) => panic!("expected an error"),
    }
}

#[test]
fn upsert_subscription_inserts_then_replaces() {
    let mut s = Store::initialize();
    s.upsert_subscription("A".to_owned(), "http://a/1".to_owned());
    s.upsert_subscription("B".to_owned(), "http://b/1".to_owned());
    s.upsert_subscription("A".to_owned(), "http://a/2".to_owned());
    assert_eq!(s.feeds.len(), 2);
    let subs = s.list_subscriptions();
    let a = subs.iter().find(|p| p.0 == "A").unwrap();
    assert_eq!(a.1, "http://a/2");
    let b = subs.iter().find(|p| p.0 == "B").unwrap();
    assert_eq!(b.1, "http://b/1");
}

#[test]
fn upsert_feed_item_always_appends() {
    let mut s = Store::initialize();
    s.upsert_feed_item(
        "A".to_owned(),
        "t".to_owned(),
        "u".to_owned(),
        "c".to_owned(),
    );
    s.upsert_feed_item(
        "A".to_owned(),
        "t".to_owned(),
        "u".to_owned(),
        "c".to_owned(),
    );
    assert_eq!(s.items.len(), 2);
}

#[test]
fn import_feed_outline_creates_row() {
    let mut s = Store::initialize();
    let outlines = vec![rss_outline("Example", Some("http://x/feed"))];
    let report = import_outlines(&mut s, &outlines);
    assert_eq!(report, vec![OutlineDisposition::Imported]);
    assert_eq!(s.feeds.len(), 1);
    assert_eq!(s.feeds[0].title, "Example");
    assert_eq!(s.feeds[0].url, "http://x/feed");
}

#[test]
fn import_missing_url_creates_no_row() {
    let mut s = Store::initialize();
    let outlines = vec![rss_outline("Example", None)];
    let report = import_outlines(&mut s, &outlines);
    assert_eq!(report, vec![OutlineDisposition::MissingUrl]);
    assert_eq!(s.feeds.len(), 0);
}

#[test]
fn import_skips_non_feed_and_untyped_outlines() {
    let mut s = Store::initialize();
    let outlines = vec![
        Outline {
            text: "folder".to_owned(),
            outline_type: Some("text".to_owned()),
            xml_url: Some("http://x/feed".to_owned()),
        },
        Outline {
            text: "bare".to_owned(),
            outline_type: None,
            xml_url: Some("http://y/feed".to_owned()),
        },
    ];
    let report = import_outlines(&mut s, &outlines);
    assert_eq!(
        report,
        vec![
            OutlineDisposition::NotFeed,
            OutlineDisposition::UnknownType
        ]
    );
    assert_eq!(s.feeds.len(), 0);
}

#[test]
fn import_twice_leaves_one_row_per_title() {
    let mut s = Store::initialize();
    let outlines = vec![
        rss_outline("Example", Some("http://x/feed")),
        rss_outline("Other", Some("http://y/feed")),
    ];
    import_outlines(&mut s, &outlines);
    import_outlines(&mut s, &outlines);
    assert_eq!(s.feeds.len(), 2);
    let subs = s.list_subscriptions();
    assert_eq!(subs.iter().filter(|p| p.0 == "Example").count(), 1);
    assert_eq!(subs.iter().filter(|p| p.0 == "Other").count(), 1);
}

#[test]
fn reimport_with_changed_url_updates_row() {
    let mut s = Store::initialize();
    import_outlines(&mut s, &vec![rss_outline("Example", Some("http://x/feed"))]);
    import_outlines(&mut s, &vec![rss_outline("Example", Some("http://x/feed2"))]);
    assert_eq!(s.feeds.len(), 1);
    assert_eq!(s.feeds[0].title, "Example");
    assert_eq!(s.feeds[0].url, "http://x/feed2");
}

#[test]
fn text_content_or_uses_default() {
    assert_eq!(text_content_or(&None, "(no title)"), "(no title)");
    assert_eq!(text_content_or(&Some("Hi".to_owned()), "(no title)"), "Hi");
}

#[test]
fn resolve_zero_links_is_empty_not_error() {
    let e = Entry {
        title: Some("t".to_owned()),
        links: vec![],
    };
    let (url, text) = resolve_entry_content(&e, None).unwrap();
    assert_eq!(url, "");
    assert_eq!(text, "");
}

#[test]
fn resolve_uses_first_link_and_given_text() {
    let e = Entry {
        title: Some("t".to_owned()),
        links: vec!["http://x/a".to_owned(), "http://x/b".to_owned()],
    };
    let rendered = "Hello world\n".to_owned();
    let (url, text) = resolve_entry_content(&e, Some(&rendered)).unwrap();
    assert_eq!(url, "http://x/a");
    assert_eq!(text, "Hello world\n");
}

#[test]
fn resolve_missing_text_is_local_error() {
    let e = Entry {
        title: Some("t".to_owned()),
        links: vec!["http://x/a".to_owned()],
    };
    assert_eq!(
        resolve_entry_content(&e, None),
        Err(ContentError::FetchFailed)
    );
}

#[test]
fn entry_item_defaults_missing_title() {
    let e = Entry {
        title: None,
        links: vec![],
    };
    let item = entry_item("Example", &e, None).unwrap();
    assert_eq!(item.title, "(no title)");
    assert_eq!(item.feed_title, "Example");
}

#[test]
fn ingest_feed_skips_failed_entries_only() {
    let mut s = Store::initialize();
    let feed = Feed {
        title: Some("Example".to_owned()),
        entries: vec![
            Entry {
                title: Some("ok".to_owned()),
                links: vec!["http://x/a".to_owned()],
            },
            Entry {
                title: Some("bad".to_owned()),
                links: vec!["http://x/b".to_owned()],
            },
            Entry {
                title: Some("free".to_owned()),
                links: vec![],
            },
        ],
    };
    let texts = vec![Some("a\n".to_owned()), None, None];
    ingest_feed(&mut s, "Example", &feed, &texts);
    assert_eq!(s.items.len(), 2);
    assert_eq!(s.items[0].title, "ok");
    assert_eq!(s.items[0].content, "a\n");
    assert_eq!(s.items[1].title, "free");
    assert_eq!(s.items[1].content, "");
}

#[test]
fn refresh_with_failures_keeps_other_feeds() {
    let mut s = Store::initialize();
    let entry = |t: &str| Entry {
        title: Some(t.to_owned()),
        links: vec![],
    };
    let outcomes = vec![
        FeedOutcome {
            feed_title: "A".to_owned(),
            fetched: Some(FetchedFeed {
                feed: Feed {
                    title: Some("A".to_owned()),
                    entries: vec![entry("a1")],
                },
                texts: vec![None],
            }),
        },
        FeedOutcome {
            feed_title: "B".to_owned(),
            fetched: None,
        },
        FeedOutcome {
            feed_title: "C".to_owned(),
            fetched: Some(FetchedFeed {
                feed: Feed {
                    title: Some("C".to_owned()),
                    entries: vec![entry("c1")],
                },
                texts: vec![None],
            }),
        },
    ];
    refresh_apply(&mut s, &outcomes);
    assert_eq!(s.items.len(), 2);
    assert_eq!(s.items[0].feed_title, "A");
    assert_eq!(s.items[0].title, "a1");
    assert_eq!(s.items[1].feed_title, "C");
    assert_eq!(s.items[1].title, "c1");
}

#[test]
fn end_to_end_import_then_refresh() {
    let mut s = Store::initialize();

    let report = import_outlines(&mut s, &vec![rss_outline("Example", Some("http://x/feed"))]);
    assert_eq!(report, vec![OutlineDisposition::Imported]);
    let subs = s.list_subscriptions();
    assert_eq!(subs.len(), 1);
    assert_eq!(subs[0].0, "Example");
    assert_eq!(subs[0].1, "http://x/feed");

    let feed = Feed {
        title: Some("Example".to_owned()),
        entries: vec![Entry {
            title: Some("Hello".to_owned()),
            links: vec!["http://x/a".to_owned()],
        }],
    };
    let texts = vec![Some("article text\n".to_owned())];
    ingest_feed(&mut s, &subs[0].0, &feed, &texts);

    assert_eq!(s.items.len(), 1);
    assert_eq!(s.items[0].feed_title, "Example");
    assert_eq!(s.items[0].title, "Hello");
    assert_eq!(s.items[0].url, "http://x/a");
    assert_eq!(s.items[0].content, "article text\n");
}
