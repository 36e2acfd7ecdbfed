//! Feed entries, the per-feed watermark state, and the unposted-entry
//! filter.
//!
//! The filter reduces a parsed feed to the entries worth publishing
//! this cycle: an entry is retained exactly when it carries a published
//! timestamp strictly after the watermark, a canonical link can be
//! selected for it, and that link is not yet in the deduplication
//! store. Entries are kept in their original relative order. After a
//! cycle the watermark advances to `now - backfill window`, so the
//! trailing window rides along with real time instead of shrinking.

use crate::dedup::DedupStore;
use crate::links::FeedLink;
use crate::links::hrefs_of;
use crate::links::select_canonical_link;
use crate::links::spec_canonical_link;
use crate::web::now_millis;
use crate::web::url_domain;
use crate::web::url_domain_of;
use vstd::prelude::*;

verus! {

/// One parsed feed entry, as the external parser hands it over:
/// every field may be missing but the link list.
pub struct FeedEntry {
    /// Published timestamp, in milliseconds since the Unix epoch.
    pub published: Option<i64>,
    pub title: Option<String>,
    pub summary: Option<String>,
    pub links: Vec<FeedLink>,
}

/// Whether the filter keeps `e`: published strictly after the
/// watermark, with a canonical link that is not yet posted.
pub open spec fn spec_retained(
    e: FeedEntry,
    watermark: i64,
    feed_domain: Option<Seq<char>>,
    posted: Seq<Seq<char>>,
) -> bool {
    &&& e.published matches Some(ts) && ts > watermark
    &&& match spec_canonical_link(hrefs_of(e.links@), feed_domain) {
        Some(u) => !posted.contains(u),
        None => false,
    }
}

/// The retained entries, in original relative order.
pub open spec fn spec_filter_entries(
    entries: Seq<FeedEntry>,
    watermark: i64,
    feed_domain: Option<Seq<char>>,
    posted: Seq<Seq<char>>,
) -> Seq<FeedEntry>
    decreases entries.len(),
{
    if entries.len() == 0 {
        Seq::empty()
    } else {
        let rest = spec_filter_entries(entries.drop_last(), watermark, feed_domain, posted);
        if spec_retained(entries.last(), watermark, feed_domain, posted) {
            rest.push(entries.last())
        } else {
            rest
        }
    }
}

/// The watermark derived from `now` and the backfill window:
/// `now - window`, clamped at the smallest timestamp.
pub open spec fn spec_rewound(now: i64, window: i64) -> i64 {
    if now - window >= i64::MIN {
        (now - window) as i64
    } else {
        i64::MIN
    }
}

/// `now - window`, clamped at the smallest representable timestamp.
fn rewind(now: i64, window: i64) -> (r: i64)
    requires
        window >= 0,
    ensures
        r == spec_rewound(now, window),
{
    if now >= i64::MIN + window {
        now - window
    } else {
        i64::MIN
    }
}

/// Keeps exactly the entries that `spec_retained` allows, in their
/// original relative order.
pub fn filter_entries(
    entries: Vec<FeedEntry>,
    watermark: i64,
    feed_domain: &Option<String>,
    store: &DedupStore,
) -> (r: Vec<FeedEntry>)
    ensures
        r@ == spec_filter_entries(entries@, watermark, feed_domain.deep_view(), store@),
{
    let ghost orig: Seq<FeedEntry> = entries@;
    let mut remaining = entries;
    let mut result: Vec<FeedEntry> = Vec::new();
    while remaining.len() > 0
        invariant
            remaining@.len() <= orig.len(),
            remaining@ == orig.skip(orig.len() - remaining@.len()),
            result@ == spec_filter_entries(
                orig.take(orig.len() - remaining@.len()),
                watermark,
                feed_domain.deep_view(),
                store@,
            ),
        decreases remaining.len(),
    {
        let ghost k = orig.len() - remaining@.len();
        let e = remaining.remove(0);
        proof {
            assert(e == orig[k]);
            assert(remaining@ =~= orig.skip(orig.len() - remaining@.len()));
        }
        let mut keep = false;
        match e.published {
            Some(ts) => {
                if ts > watermark {
                    match select_canonical_link(&e.links, feed_domain) {
                        Some(u) => {
                            keep = !store.exists_url(&u);
                        },
                        None => {},
                    }
                }
            },
            None => {},
        }
        proof {
            assert(keep == spec_retained(orig[k], watermark, feed_domain.deep_view(), store@));
            assert(orig.take(k + 1).drop_last() =~= orig.take(k));
            assert(orig.take(k + 1).last() == orig[k]);
        }
        if keep {
            result.push(e);
        }
    }
    proof {
        assert(orig.take(orig.len() - remaining@.len()) =~= entries@);
    }
    result
}

/// The filter is exactly `Seq::filter` with the retention predicate:
/// a subsequence of the input, in the input's order.
pub proof fn lemma_filter_is_seq_filter(
    entries: Seq<FeedEntry>,
    watermark: i64,
    feed_domain: Option<Seq<char>>,
    posted: Seq<Seq<char>>,
)
    ensures
        spec_filter_entries(entries, watermark, feed_domain, posted) == entries.filter(
            (|e: FeedEntry| spec_retained(e, watermark, feed_domain, posted)),
        ),
    decreases entries.len(),
{
    reveal(Seq::filter);
    let pred = (|e: FeedEntry| spec_retained(e, watermark, feed_domain, posted));
    if entries.len() == 0 {
        assert(spec_filter_entries(entries, watermark, feed_domain, posted) =~= entries.filter(
            pred,
        ));
    } else {
        lemma_filter_is_seq_filter(entries.drop_last(), watermark, feed_domain, posted);
        assert(entries.filter(pred) == if pred(entries.last()) {
            entries.drop_last().filter(pred).push(entries.last())
        } else {
            entries.drop_last().filter(pred)
        });
    }
}

/// What filtering keeps, exactly: every kept entry is a retained entry
/// of the input, and every retained entry of the input is kept.
pub proof fn lemma_filter_retained_exactly(
    entries: Seq<FeedEntry>,
    watermark: i64,
    feed_domain: Option<Seq<char>>,
    posted: Seq<Seq<char>>,
)
    ensures
        forall|j: int|
            0 <= j < spec_filter_entries(entries, watermark, feed_domain, posted).len()
                ==> spec_retained(
                #[trigger] spec_filter_entries(entries, watermark, feed_domain, posted)[j],
                watermark,
                feed_domain,
                posted,
            ) && entries.contains(spec_filter_entries(entries, watermark, feed_domain, posted)[j]),
        forall|i: int|
            0 <= i < entries.len() && spec_retained(entries[i], watermark, feed_domain, posted)
                ==> spec_filter_entries(entries, watermark, feed_domain, posted).contains(
                entries[i],
            ),
    decreases entries.len(),
{
    let kept_seq = spec_filter_entries(entries, watermark, feed_domain, posted);
    if entries.len() == 0 {
    } else {
        let prefix = entries.drop_last();
        let last = entries.last();
        let rest = spec_filter_entries(prefix, watermark, feed_domain, posted);
        lemma_filter_retained_exactly(prefix, watermark, feed_domain, posted);
        assert forall|j: int| 0 <= j < kept_seq.len() implies spec_retained(
            #[trigger] kept_seq[j],
            watermark,
            feed_domain,
            posted,
        ) && entries.contains(kept_seq[j]) by {
            if j < rest.len() {
                assert(kept_seq[j] == rest[j]);
                let kept = rest[j];
                assert(prefix.contains(kept));
                let w = choose|w: int| 0 <= w < prefix.len() && prefix[w] == kept;
                assert(entries[w] == kept);
            } else {
                assert(kept_seq[j] == last);
                assert(entries[entries.len() - 1] == last);
            }
        }
        assert forall|i: int|
            0 <= i < entries.len() && spec_retained(
                entries[i],
                watermark,
                feed_domain,
                posted,
            ) implies kept_seq.contains(entries[i]) by {
            if i < entries.len() - 1 {
                assert(prefix[i] == entries[i]);
                assert(rest.contains(entries[i]));
                let w = choose|w: int| 0 <= w < rest.len() && rest[w] == entries[i];
                assert(kept_seq[w] == entries[i]);
            } else {
                assert(entries[i] == last);
                assert(kept_seq[kept_seq.len() - 1] == last);
            }
        }
    }
}

/// Entries lacking a published timestamp are never kept.
pub proof fn lemma_filter_excludes_unpublished(
    entries: Seq<FeedEntry>,
    watermark: i64,
    feed_domain: Option<Seq<char>>,
    posted: Seq<Seq<char>>,
)
    ensures
        forall|j: int|
            0 <= j < spec_filter_entries(entries, watermark, feed_domain, posted).len()
                ==> spec_filter_entries(entries, watermark, feed_domain, posted)[j].published
                is Some,
{
    lemma_filter_retained_exactly(entries, watermark, feed_domain, posted);
}

/// Filtering is idempotent: running the filter on its own output, with
/// the same watermark and the same store contents, changes nothing.
pub proof fn lemma_filter_idempotent(
    entries: Seq<FeedEntry>,
    watermark: i64,
    feed_domain: Option<Seq<char>>,
    posted: Seq<Seq<char>>,
)
    ensures
        spec_filter_entries(
            spec_filter_entries(entries, watermark, feed_domain, posted),
            watermark,
            feed_domain,
            posted,
        ) == spec_filter_entries(entries, watermark, feed_domain, posted),
    decreases entries.len(),
{
    if entries.len() == 0 {
    } else {
        let prefix = entries.drop_last();
        let last = entries.last();
        let rest = spec_filter_entries(prefix, watermark, feed_domain, posted);
        lemma_filter_idempotent(prefix, watermark, feed_domain, posted);
        if spec_retained(last, watermark, feed_domain, posted) {
            assert(rest.push(last).drop_last() =~= rest);
            assert(rest.push(last).last() == last);
        }
    }
}

/// The watermark boundary: an entry published at or before the
/// watermark is never kept; one published strictly after it is kept
/// exactly when its canonical link exists and is not yet posted.
pub proof fn lemma_filter_watermark_boundary(
    entries: Seq<FeedEntry>,
    watermark: i64,
    feed_domain: Option<Seq<char>>,
    posted: Seq<Seq<char>>,
    i: int,
)
    requires
        0 <= i < entries.len(),
    ensures
        (match entries[i].published {
            Some(ts) => ts <= watermark,
            None => true,
        }) ==> !spec_filter_entries(entries, watermark, feed_domain, posted).contains(entries[i]),
        (entries[i].published matches Some(ts) && ts > watermark && (
        match spec_canonical_link(hrefs_of(entries[i].links@), feed_domain) {
            Some(u) => !posted.contains(u),
            None => false,
        })) ==> spec_filter_entries(entries, watermark, feed_domain, posted).contains(entries[i]),
{
    lemma_filter_retained_exactly(entries, watermark, feed_domain, posted);
}

/// A URL already recorded in the store suppresses its entry, whatever
/// the entry's timestamp.
pub proof fn lemma_filter_excludes_posted(
    entries: Seq<FeedEntry>,
    watermark: i64,
    feed_domain: Option<Seq<char>>,
    posted: Seq<Seq<char>>,
    i: int,
)
    requires
        0 <= i < entries.len(),
        match spec_canonical_link(hrefs_of(entries[i].links@), feed_domain) {
            Some(u) => posted.contains(u),
            None => true,
        },
    ensures
        !spec_filter_entries(entries, watermark, feed_domain, posted).contains(entries[i]),
{
    lemma_filter_retained_exactly(entries, watermark, feed_domain, posted);
}

/// One configured feed's state: its URL and derived domain, the
/// backfill window, and the mutable fetch-after watermark. Owned by a
/// single scheduling task; never shared across feeds.
pub struct FeedSource {
    feed_url: String,
    feed_domain: Option<String>,
    backfill_window: i64,
    watermark: i64,
}

impl FeedSource {
    /// The feed's URL.
    pub closed spec fn spec_feed_url(&self) -> Seq<char> {
        self.feed_url@
    }

    /// The domain of the feed's URL, as URL parsing assigns it.
    pub closed spec fn spec_feed_domain(&self) -> Option<Seq<char>> {
        self.feed_domain.deep_view()
    }

    /// The trailing backfill window, in milliseconds.
    pub closed spec fn spec_backfill_window(&self) -> i64 {
        self.backfill_window
    }

    /// The boundary below which entries count as already handled.
    pub closed spec fn spec_watermark(&self) -> i64 {
        self.watermark
    }

    pub open spec fn wf(&self) -> bool {
        self.spec_backfill_window() >= 0
    }

    /// Creates the state for one feed, with the watermark rewound by
    /// the backfill window from `now`: a restart re-derives the
    /// watermark this way rather than persisting it.
    pub fn new(feed_url: String, backfill_window: i64, now: i64) -> (s: Self)
        requires
            backfill_window >= 0,
        ensures
            s.wf(),
            s.spec_feed_url() == feed_url@,
            s.spec_feed_domain() == url_domain_of(feed_url@),
            s.spec_backfill_window() == backfill_window,
            s.spec_watermark() == spec_rewound(now, backfill_window),
    {
        let feed_domain = url_domain(feed_url.as_str());
        let watermark = rewind(now, backfill_window);
        FeedSource { feed_url, feed_domain, backfill_window, watermark }
    }

    /// As `new`, reading the wall clock for `now`; nothing more is
    /// known of the watermark than that it was rewound from some
    /// clock reading.
    pub fn new_from_clock(feed_url: String, backfill_window: i64) -> (s: Self)
        requires
            backfill_window >= 0,
        ensures
            s.wf(),
            s.spec_feed_url() == feed_url@,
            s.spec_feed_domain() == url_domain_of(feed_url@),
            s.spec_backfill_window() == backfill_window,
            exists|now: i64| s.spec_watermark() == spec_rewound(now, backfill_window),
    {
        let now = now_millis();
        let s = Self::new(feed_url, backfill_window, now);
        proof {
            assert(s.spec_watermark() == spec_rewound(now, backfill_window));
        }
        s
    }

    pub fn feed_url(&self) -> (r: &String)
        ensures
            r@ == self.spec_feed_url(),
    {
        &self.feed_url
    }

    pub fn watermark(&self) -> (r: i64)
        ensures
            r == self.spec_watermark(),
    {
        self.watermark
    }

    pub fn feed_domain(&self) -> (r: &Option<String>)
        ensures
            r.deep_view() == self.spec_feed_domain(),
    {
        &self.feed_domain
    }

    /// Advances the watermark to `now - backfill window` — not plain
    /// `now`, so entries published while a slow fetch ran are not
    /// silently skipped next cycle.
    pub fn advance_watermark(&mut self, now: i64)
        requires
            old(self).wf(),
        ensures
            final(self).wf(),
            final(self).spec_watermark() == spec_rewound(now, old(self).spec_backfill_window()),
            final(self).spec_feed_url() == old(self).spec_feed_url(),
            final(self).spec_feed_domain() == old(self).spec_feed_domain(),
            final(self).spec_backfill_window() == old(self).spec_backfill_window(),
    {
        self.watermark = rewind(now, self.backfill_window);
    }

    /// One cycle's filtering step: reduces the parsed entries with the
    /// current watermark, then advances the watermark from `now`.
    pub fn filter_unposted(
        &mut self,
        entries: Vec<FeedEntry>,
        store: &DedupStore,
        now: i64,
    ) -> (r: Vec<FeedEntry>)
        requires
            old(self).wf(),
        ensures
            r@ == spec_filter_entries(
                entries@,
                old(self).spec_watermark(),
                old(self).spec_feed_domain(),
                store@,
            ),
            final(self).wf(),
            final(self).spec_watermark() == spec_rewound(now, old(self).spec_backfill_window()),
            final(self).spec_feed_url() == old(self).spec_feed_url(),
            final(self).spec_feed_domain() == old(self).spec_feed_domain(),
            final(self).spec_backfill_window() == old(self).spec_backfill_window(),
    {
        let result = filter_entries(entries, self.watermark, &self.feed_domain, store);
        self.advance_watermark(now);
        result
    }
}

} // verus!
