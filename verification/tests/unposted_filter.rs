use skywrite::dedup::DedupStore;
use skywrite::feed::FeedEntry;
use skywrite::feed::FeedSource;
use skywrite::feed::filter_entries;
use skywrite::links::FeedLink;

fn entry(published: Option<i64>, href: &str) -> FeedEntry {
    FeedEntry {
        published,
        title: Some(String::from("A title")),
        summary: None,
        links: vec![FeedLink { href: String::from(href) }],
    }
}

fn hrefs(entries: &[FeedEntry]) -> Vec<String> {
    entries.iter().map(|e| e.links[0].href.clone()).collect()
}

#[test]
fn an_empty_feed_filters_to_nothing() {
    let store = DedupStore::new();
    let kept = filter_entries(Vec::new(), 0, &Some(String::from("feed.com")), &store);
    assert!(kept.is_empty());
}

#[test]
fn the_source_keeps_its_feed_url() {
    let source = FeedSource::new(String::from("http://feed.com/rss"), 1_000, 0);
    assert_eq!(source.feed_url().as_str(), "http://feed.com/rss");
}

#[test]
fn a_clock_read_initializes_the_watermark() {
    let window: i64 = 1_000;
    let source = FeedSource::new_from_clock(String::from("http://feed.com/rss"), window);
    // The clock gives a positive epoch timestamp, so the rewound
    // watermark sits strictly above the epoch sentinel.
    assert!(source.watermark() > 0);
}

#[test]
fn the_watermark_clamps_instead_of_wrapping() {
    let source = FeedSource::new(String::from("http://feed.com/rss"), i64::MAX, i64::MIN);
    assert_eq!(source.watermark(), i64::MIN);
}

#[test]
fn excludes_entries_without_published_timestamp() {
    let store = DedupStore::new();
    let entries = vec![entry(None, "http://feed.com/a"), entry(Some(1_000), "http://feed.com/b")];
    let kept = filter_entries(entries, 0, &Some(String::from("feed.com")), &store);
    assert_eq!(hrefs(&kept), vec![String::from("http://feed.com/b")]);
}

#[test]
fn watermark_boundary_is_exclusive() {
    let store = DedupStore::new();
    let watermark: i64 = 5_000;
    let entries = vec![
        entry(Some(4_999), "http://feed.com/older"),
        entry(Some(5_000), "http://feed.com/exactly-at"),
        entry(Some(5_001), "http://feed.com/after"),
    ];
    let kept = filter_entries(entries, watermark, &Some(String::from("feed.com")), &store);
    assert_eq!(hrefs(&kept), vec![String::from("http://feed.com/after")]);
}

#[test]
fn excludes_already_posted_urls_regardless_of_timestamp() {
    let mut store = DedupStore::new();
    store.insert(&String::from("http://feed.com/posted"));
    let entries = vec![
        entry(Some(9_999_999), "http://feed.com/posted"),
        entry(Some(2_000), "http://feed.com/fresh"),
    ];
    let kept = filter_entries(entries, 0, &Some(String::from("feed.com")), &store);
    assert_eq!(hrefs(&kept), vec![String::from("http://feed.com/fresh")]);
}

#[test]
fn dedup_goes_by_the_canonical_link() {
    let mut store = DedupStore::new();
    store.insert(&String::from("http://feed.com/posted"));
    let multi_link = FeedEntry {
        published: Some(1_000),
        title: None,
        summary: None,
        links: vec![
            FeedLink { href: String::from("http://mirror.org/posted") },
            FeedLink { href: String::from("http://feed.com/posted") },
        ],
    };
    let kept = filter_entries(vec![multi_link], 0, &Some(String::from("feed.com")), &store);
    assert!(kept.is_empty());
}

#[test]
fn entries_without_links_are_skipped() {
    let store = DedupStore::new();
    let no_links = FeedEntry {
        published: Some(1_000),
        title: None,
        summary: None,
        links: Vec::new(),
    };
    let kept = filter_entries(vec![no_links], 0, &Some(String::from("feed.com")), &store);
    assert!(kept.is_empty());
}

#[test]
fn original_relative_order_is_kept() {
    let store = DedupStore::new();
    let entries = vec![
        entry(Some(3_000), "http://feed.com/third-newest"),
        entry(Some(1_000), "http://feed.com/oldest"),
        entry(Some(2_000), "http://feed.com/middle"),
    ];
    let kept = filter_entries(entries, 0, &Some(String::from("feed.com")), &store);
    assert_eq!(
        hrefs(&kept),
        vec![
            String::from("http://feed.com/third-newest"),
            String::from("http://feed.com/oldest"),
            String::from("http://feed.com/middle"),
        ]
    );
}

#[test]
fn filtering_twice_with_the_same_watermark_changes_nothing() {
    let store = DedupStore::new();
    let entries = vec![
        entry(None, "http://feed.com/a"),
        entry(Some(1_000), "http://feed.com/b"),
        entry(Some(2_000), "http://feed.com/c"),
    ];
    let once = filter_entries(entries, 500, &Some(String::from("feed.com")), &store);
    let first_pass = hrefs(&once);
    let twice = filter_entries(once, 500, &Some(String::from("feed.com")), &store);
    assert_eq!(hrefs(&twice), first_pass);
}

#[test]
fn watermark_advances_by_the_backfill_window_behind_now() {
    let window: i64 = 3 * 60 * 60 * 1_000;
    let start: i64 = 1_000_000_000;
    let mut source = FeedSource::new(String::from("http://feed.com/rss"), window, start);
    assert_eq!(source.watermark(), start - window);

    let store = DedupStore::new();
    let end_of_cycle: i64 = start + 45_000;
    let kept = source.filter_unposted(
        vec![entry(Some(start - 1_000), "http://feed.com/recent")],
        &store,
        end_of_cycle,
    );
    assert_eq!(kept.len(), 1);
    assert_eq!(source.watermark(), end_of_cycle - window);
}

#[test]
fn restart_rederives_the_watermark_and_recovers_unrecorded_entries() {
    let window: i64 = 3 * 60 * 60 * 1_000;
    let crash_time: i64 = 50_000_000;
    let published_at: i64 = crash_time - 10_000;

    // The entry was published before the crash but its URL was never
    // recorded. A restarted process rewinds the watermark by the full
    // backfill window from its own startup time.
    let restart_time: i64 = crash_time + 60_000;
    let mut source = FeedSource::new(String::from("http://feed.com/rss"), window, restart_time);
    assert_eq!(source.watermark(), restart_time - window);

    let store = DedupStore::new();
    let kept = source.filter_unposted(
        vec![entry(Some(published_at), "http://feed.com/unrecorded")],
        &store,
        restart_time,
    );
    assert_eq!(hrefs(&kept), vec![String::from("http://feed.com/unrecorded")]);
}
