//! Canonical link selection: of an entry's ordered candidate links,
//! pick the one that stands for the article.
//!
//! The first link whose URL domain equals the feed's own domain wins;
//! with no such link the first link in original order wins; an entry
//! without links yields none. A candidate that does not parse as a URL
//! cannot win the domain preference but stays eligible as the fallback.

use crate::web::url_domain;
use crate::web::url_domain_of;
use vstd::prelude::*;

verus! {

/// One candidate link of a feed entry.
pub struct FeedLink {
    pub href: String,
}

/// The hrefs of a link sequence, in order.
pub open spec fn hrefs_of(links: Seq<FeedLink>) -> Seq<Seq<char>> {
    links.map_values(|l: FeedLink| l.href@)
}

/// Whether a candidate href is preferred: the feed has a domain and the
/// href's own domain equals it.
pub open spec fn link_preferred(href: Seq<char>, feed_domain: Option<Seq<char>>) -> bool {
    &&& feed_domain is Some
    &&& url_domain_of(href) == feed_domain
}

/// The index of the first preferred href, if any.
pub open spec fn first_preferred(hrefs: Seq<Seq<char>>, feed_domain: Option<Seq<char>>) -> Option<
    int,
>
    decreases hrefs.len(),
{
    if hrefs.len() == 0 {
        None
    } else if link_preferred(hrefs[0], feed_domain) {
        Some(0)
    } else {
        match first_preferred(hrefs.skip(1), feed_domain) {
            Some(i) => Some(i + 1),
            None => None,
        }
    }
}

/// The canonical href: the first preferred one, else the first one,
/// else none.
pub open spec fn spec_canonical_link(
    hrefs: Seq<Seq<char>>,
    feed_domain: Option<Seq<char>>,
) -> Option<Seq<char>> {
    match first_preferred(hrefs, feed_domain) {
        Some(i) => Some(hrefs[i]),
        None => if hrefs.len() > 0 {
            Some(hrefs[0])
        } else {
            None
        },
    }
}

/// `first_preferred` names the smallest preferred index: it is in
/// range, preferred, and nothing before it is preferred; when it is
/// none, no index is preferred.
pub proof fn lemma_first_preferred(hrefs: Seq<Seq<char>>, feed_domain: Option<Seq<char>>)
    ensures
        match first_preferred(hrefs, feed_domain) {
            Some(i) => {
                &&& 0 <= i < hrefs.len()
                &&& link_preferred(hrefs[i], feed_domain)
                &&& forall|j: int| 0 <= j < i ==> !link_preferred(hrefs[j], feed_domain)
            },
            None => forall|j: int|
                0 <= j < hrefs.len() ==> !link_preferred(hrefs[j], feed_domain),
        },
    decreases hrefs.len(),
{
    if hrefs.len() == 0 {
    } else if link_preferred(hrefs[0], feed_domain) {
    } else {
        lemma_first_preferred(hrefs.skip(1), feed_domain);
        match first_preferred(hrefs.skip(1), feed_domain) {
            Some(i) => {
                assert(hrefs.skip(1)[i] == hrefs[i + 1]);
                assert forall|j: int| 0 <= j < i + 1 implies !link_preferred(
                    hrefs[j],
                    feed_domain,
                ) by {
                    if j >= 1 {
                        assert(hrefs[j] == hrefs.skip(1)[j - 1]);
                        assert(!link_preferred(hrefs.skip(1)[j - 1], feed_domain));
                    }
                }
            },
            None => {
                assert forall|j: int| 0 <= j < hrefs.len() implies !link_preferred(
                    hrefs[j],
                    feed_domain,
                ) by {
                    if j >= 1 {
                        assert(hrefs[j] == hrefs.skip(1)[j - 1]);
                        assert(!link_preferred(hrefs.skip(1)[j - 1], feed_domain));
                    }
                }
            },
        }
    }
}

/// The earliest link on the feed's own domain wins the selection.
pub proof fn lemma_preferred_link_wins(
    hrefs: Seq<Seq<char>>,
    feed_domain: Option<Seq<char>>,
    i: int,
)
    requires
        0 <= i < hrefs.len(),
        link_preferred(hrefs[i], feed_domain),
        forall|j: int| 0 <= j < i ==> !link_preferred(hrefs[j], feed_domain),
    ensures
        spec_canonical_link(hrefs, feed_domain) == Some(hrefs[i]),
{
    lemma_first_preferred(hrefs, feed_domain);
    match first_preferred(hrefs, feed_domain) {
        Some(k) => {
            if k < i {
                assert(!link_preferred(hrefs[k], feed_domain));
            }
            if k > i {
                assert(!link_preferred(hrefs[i], feed_domain));
            }
        },
        None => {
            assert(!link_preferred(hrefs[i], feed_domain));
        },
    }
}

/// With no link on the feed's own domain, the first link wins
/// unmodified.
pub proof fn lemma_selection_falls_back_to_first(
    hrefs: Seq<Seq<char>>,
    feed_domain: Option<Seq<char>>,
)
    requires
        hrefs.len() > 0,
        forall|j: int| 0 <= j < hrefs.len() ==> !link_preferred(hrefs[j], feed_domain),
    ensures
        spec_canonical_link(hrefs, feed_domain) == Some(hrefs[0]),
{
    lemma_first_preferred(hrefs, feed_domain);
    match first_preferred(hrefs, feed_domain) {
        Some(k) => {
            assert(!link_preferred(hrefs[k], feed_domain));
        },
        None => {},
    }
}

/// Picks the canonical link of `links` for a feed whose URL has domain
/// `feed_domain`, or none when the entry has no links at all.
pub fn select_canonical_link(links: &Vec<FeedLink>, feed_domain: &Option<String>) -> (r: Option<
    String,
>)
    ensures
        match r {
            Some(u) => spec_canonical_link(hrefs_of(links@), feed_domain.deep_view()) == Some(u@),
            None => spec_canonical_link(hrefs_of(links@), feed_domain.deep_view()) is None,
        },
{
    let mut i: usize = 0;
    while i < links.len()
        invariant
            0 <= i <= links.len(),
            forall|j: int|
                0 <= j < i ==> !link_preferred(hrefs_of(links@)[j], feed_domain.deep_view()),
        decreases links.len() - i,
    {
        let candidate_domain = url_domain(links[i].href.as_str());
        let preferred = match (&candidate_domain, feed_domain) {
            (Some(c), Some(f)) => *c == *f,
            _ => false,
        };
        if preferred {
            proof {
                assert(link_preferred(hrefs_of(links@)[i as int], feed_domain.deep_view()));
                lemma_first_preferred(hrefs_of(links@), feed_domain.deep_view());
            }
            return Some(links[i].href.clone());
        }
        proof {
            assert(!link_preferred(hrefs_of(links@)[i as int], feed_domain.deep_view()));
        }
        i += 1;
    }
    proof {
        lemma_first_preferred(hrefs_of(links@), feed_domain.deep_view());
        match first_preferred(hrefs_of(links@), feed_domain.deep_view()) {
            Some(k) => {
                assert(!link_preferred(hrefs_of(links@)[k], feed_domain.deep_view()));
                assert(false);
            },
            None => {},
        }
    }
    if links.len() > 0 {
        Some(links[0].href.clone())
    } else {
        None
    }
}

} // verus!
