//! The deduplication store: the set of article URLs that have already
//! been posted, kept in insertion order with a bounded FIFO retention.
//!
//! The store is the durable at-most-once gate of the pipeline. Its view
//! is the sequence of stored URLs in insertion order; well-formedness
//! says every URL appears at most once.

use vstd::prelude::*;

verus! {

/// The retention cap: trimming deletes the oldest rows beyond this many.
pub const MAX_STORED_URLS: usize = 500;

/// The set of already-posted URLs, in insertion order, each at most once.
pub struct DedupStore {
    urls: Vec<String>,
}

impl View for DedupStore {
    type V = Seq<Seq<char>>;

    closed spec fn view(&self) -> Seq<Seq<char>> {
        self.urls.deep_view()
    }
}

/// The store's contents after inserting `url`: unchanged when already
/// present, appended at the end otherwise.
pub open spec fn spec_inserted(s: Seq<Seq<char>>, url: Seq<char>) -> Seq<Seq<char>> {
    if s.contains(url) {
        s
    } else {
        s.push(url)
    }
}

/// The store's contents after trimming to `max` rows: the `max` newest
/// rows by insertion order, all of them when there is no excess.
pub open spec fn spec_trimmed(s: Seq<Seq<char>>, max: int) -> Seq<Seq<char>> {
    if s.len() <= max {
        s
    } else {
        s.skip(s.len() - max)
    }
}

impl DedupStore {
    /// A URL appears at most once.
    pub open spec fn wf(&self) -> bool {
        forall|i: int, j: int| 0 <= i < j < self@.len() ==> self@[i] != self@[j]
    }

    pub fn new() -> (s: Self)
        ensures
            s@ == Seq::<Seq<char>>::empty(),
            s.wf(),
    {
        let s = DedupStore { urls: Vec::new() };
        proof {
            assert(s@ =~= Seq::<Seq<char>>::empty());
        }
        s
    }

    pub fn len(&self) -> (n: usize)
        ensures
            n == self@.len(),
    {
        self.urls.len()
    }

    /// True iff a record for `url` is present; absence is the normal
    /// "not yet posted" case, not an error.
    pub fn exists_url(&self, url: &String) -> (r: bool)
        ensures
            r == self@.contains(url@),
    {
        let mut i: usize = 0;
        while i < self.urls.len()
            invariant
                0 <= i <= self.urls.len(),
                forall|j: int| 0 <= j < i ==> self@[j] != url@,
            decreases self.urls.len() - i,
        {
            if self.urls[i] == *url {
                proof {
                    assert(self@[i as int] == url@);
                }
                return true;
            }
            i += 1;
        }
        proof {
            assert(!self@.contains(url@));
        }
        false
    }

    /// Records `url` as posted. Idempotent: a URL already present is
    /// left alone, so a URL is never stored twice.
    pub fn insert(&mut self, url: &String)
        requires
            old(self).wf(),
        ensures
            final(self)@ == spec_inserted(old(self)@, url@),
            final(self).wf(),
    {
        if !self.exists_url(url) {
            let ghost pre = self@;
            self.urls.push(url.clone());
            proof {
                assert(self@ =~= pre.push(url@));
            }
        }
    }

    /// Administrative removal; a no-op (not an error) when the URL is
    /// not present.
    pub fn remove(&mut self, url: &String)
        requires
            old(self).wf(),
        ensures
            final(self)@ == old(self)@.remove_value(url@),
            !final(self)@.contains(url@),
            final(self).wf(),
    {
        let ghost pre = self@;
        let mut i: usize = 0;
        while i < self.urls.len()
            invariant
                pre == old(self)@,
                self@ == pre,
                0 <= i <= self.urls.len(),
                forall|j: int| 0 <= j < i ==> self@[j] != url@,
                forall|a: int, b: int| 0 <= a < b < pre.len() ==> pre[a] != pre[b],
            decreases self.urls.len() - i,
        {
            if self.urls[i] == *url {
                proof {
                    assert(pre[i as int] == url@);
                    assert(pre.contains(url@));
                    pre.index_of_first_ensures(url@);
                    assert(pre.index_of_first(url@) == Some(i as int));
                }
                self.urls.remove(i);
                proof {
                    assert(self@ =~= pre.remove(i as int));
                    assert(forall|k: int|
                        0 <= k < self@.len() && k < i ==> self@[k] == pre[k]);
                    assert(forall|k: int|
                        i <= k < self@.len() ==> self@[k] == pre[k + 1]);
                    assert(!self@.contains(url@)) by {
                        if self@.contains(url@) {
                            let k = choose|k: int|
                                0 <= k < self@.len() && self@[k] == url@;
                        }
                    }
                    assert(self@ == pre.remove_value(url@));
                }
                return
            }
            i += 1;
        }
        proof {
            assert(!pre.contains(url@));
            pre.index_of_first_ensures(url@);
        }
    }

    /// Deletes the oldest rows beyond `max`, by insertion order: a FIFO
    /// cap, not a time-based expiry.
    pub fn trim(&mut self, max: usize)
        requires
            old(self).wf(),
        ensures
            final(self)@ == spec_trimmed(old(self)@, max as int),
            final(self)@.len() <= max,
            final(self).wf(),
    {
        let ghost pre = self@;
        while self.urls.len() > max
            invariant
                pre == old(self)@,
                self@ == spec_trimmed(pre, self@.len() as int),
                max <= self@.len() || self@ == pre,
                forall|a: int, b: int| 0 <= a < b < pre.len() ==> pre[a] != pre[b],
            decreases self.urls.len(),
        {
            let ghost cur = self@;
            self.urls.remove(0);
            proof {
                assert(self@ =~= cur.remove(0));
                assert(self@ =~= pre.skip(pre.len() - self@.len()));
            }
        }
        proof {
            if pre.len() > max {
                assert(self@ =~= spec_trimmed(pre, max as int));
            }
        }
    }
}

/// The store's contents after inserting each of `urls` in order.
pub open spec fn spec_inserted_all(s: Seq<Seq<char>>, urls: Seq<Seq<char>>) -> Seq<Seq<char>>
    decreases urls.len(),
{
    if urls.len() == 0 {
        s
    } else {
        spec_inserted(spec_inserted_all(s, urls.drop_last()), urls.last())
    }
}

/// The store's contents after removing each of `urls` in order.
pub open spec fn spec_removed_all(s: Seq<Seq<char>>, urls: Seq<Seq<char>>) -> Seq<Seq<char>>
    decreases urls.len(),
{
    if urls.len() == 0 {
        s
    } else {
        spec_removed_all(s, urls.drop_last()).remove_value(urls.last())
    }
}

impl DedupStore {
    /// Marks each given URL as already posted, in order; URLs already
    /// present are left alone.
    pub fn insert_all(&mut self, urls: &Vec<String>)
        requires
            old(self).wf(),
        ensures
            final(self)@ == spec_inserted_all(old(self)@, urls.deep_view()),
            final(self).wf(),
    {
        let ghost pre = self@;
        let ghost url_views = urls.deep_view();
        let mut i: usize = 0;
        while i < urls.len()
            invariant
                pre == old(self)@,
                url_views == urls.deep_view(),
                0 <= i <= urls.len(),
                self@ == spec_inserted_all(pre, url_views.take(i as int)),
                self.wf(),
            decreases urls.len() - i,
        {
            self.insert(&urls[i]);
            proof {
                assert(url_views.take(i + 1).drop_last() =~= url_views.take(i as int));
                assert(url_views.take(i + 1).last() == url_views[i as int]);
            }
            i += 1;
        }
        proof {
            assert(url_views.take(urls.len() as int) =~= url_views);
        }
    }

    /// Removes each given URL, in order; URLs not present are passed
    /// over silently.
    pub fn remove_all(&mut self, urls: &Vec<String>)
        requires
            old(self).wf(),
        ensures
            final(self)@ == spec_removed_all(old(self)@, urls.deep_view()),
            final(self).wf(),
    {
        let ghost pre = self@;
        let ghost url_views = urls.deep_view();
        let mut i: usize = 0;
        while i < urls.len()
            invariant
                pre == old(self)@,
                url_views == urls.deep_view(),
                0 <= i <= urls.len(),
                self@ == spec_removed_all(pre, url_views.take(i as int)),
                self.wf(),
            decreases urls.len() - i,
        {
            self.remove(&urls[i]);
            proof {
                assert(url_views.take(i + 1).drop_last() =~= url_views.take(i as int));
                assert(url_views.take(i + 1).last() == url_views[i as int]);
            }
            i += 1;
        }
        proof {
            assert(url_views.take(urls.len() as int) =~= url_views);
        }
    }
}

/// Inserting a URL makes it present: `exists` right after `insert`
/// returns true.
pub proof fn lemma_insert_then_present(s: Seq<Seq<char>>, url: Seq<char>)
    ensures
        spec_inserted(s, url).contains(url),
{
    if !s.contains(url) {
        assert(spec_inserted(s, url)[s.len() as int] == url);
    }
}

/// Removing a URL makes it absent: `exists` right after `remove`
/// returns false, provided the store held each URL at most once.
pub proof fn lemma_remove_then_absent(s: Seq<Seq<char>>, url: Seq<char>)
    requires
        forall|i: int, j: int| 0 <= i < j < s.len() ==> s[i] != s[j],
    ensures
        !s.remove_value(url).contains(url),
{
    s.index_of_first_ensures(url);
    match s.index_of_first(url) {
        Some(idx) => {
            let r = s.remove(idx);
            if r.contains(url) {
                let k = choose|k: int| 0 <= k < r.len() && r[k] == url;
                assert(if k < idx {
                    s[k] == url
                } else {
                    s[k + 1] == url
                });
            }
        },
        None => {},
    }
}

} // verus!
