//! The trusted boundary around the outside crates the core leans on:
//! URL parsing (`url`), HTML parsing and CSS-selector matching
//! (`scraper`), and the wall clock (`chrono`). Each call is behind a
//! small wrapper whose contract names what the call computes; the
//! results that take pages to state are given uninterpreted names and
//! the rest of the library reasons over those names.

use vstd::prelude::*;

verus! {

/// The registrable domain that URL parsing assigns to `href`, or none
/// when `href` does not parse as an absolute URL or has no domain
/// (for instance an IP-address host).
pub uninterp spec fn url_domain_of(href: Seq<char>) -> Option<Seq<char>>;

/// Whether `s` parses as an absolute URL.
pub uninterp spec fn url_parse_ok(s: Seq<char>) -> bool;

/// The attribute value that CSS-selector matching yields for the first
/// element of `html` matching `selector`, read at attribute `attr`, or
/// none when nothing matches or the attribute is absent. Also none when
/// `selector` is not a well-formed selector.
pub uninterp spec fn selected_attr_of(
    html: Seq<char>,
    selector: Seq<char>,
    attr: Seq<char>,
) -> Option<Seq<char>>;

/// The concatenation of the text nodes of `html` parsed as an HTML
/// fragment, all tags discarded.
pub uninterp spec fn text_content_of(html: Seq<char>) -> Seq<char>;

/// Relies on url::Url::parse and url::Url::domain: both are functions
/// of the text alone; `domain` returns the parsed URL's domain name
/// when its host is a domain.
#[verifier::external_body]
pub(crate) fn url_domain(href: &str) -> (r: Option<String>)
    ensures
        match r {
            Some(d) => url_domain_of(href@) == Some(d@),
            None => url_domain_of(href@) is None,
        },
{
    match url::Url::parse(href) {
        Ok(u) => u.domain().map(|d| d.to_string()),
        Err(_) => None,
    }
}

/// Relies on url::Url::parse: whether parsing succeeds depends on the
/// text alone.
#[verifier::external_body]
pub(crate) fn is_parseable_url(s: &str) -> (r: bool)
    ensures
        r == url_parse_ok(s@),
{
    url::Url::parse(s).is_ok()
}

/// Relies on scraper::Selector::parse, scraper::Html::parse_document
/// and scraper::Html::select: all are functions of the two texts alone;
/// `select` walks the parsed document's elements in document order.
#[verifier::external_body]
pub(crate) fn select_attr(html: &str, selector: &str, attr: &str) -> (r: Option<String>)
    ensures
        match r {
            Some(v) => selected_attr_of(html@, selector@, attr@) == Some(v@),
            None => selected_attr_of(html@, selector@, attr@) is None,
        },
{
    match scraper::Selector::parse(selector) {
        Ok(sel) => scraper::Html::parse_document(html)
            .select(&sel)
            .next()
            .and_then(|element| element.value().attr(attr))
            .map(|value| value.to_string()),
        Err(_) => None,
    }
}

/// Relies on scraper::Html::parse_fragment and the parsed tree's nodes:
/// the tree is a function of the text alone; its text nodes are
/// concatenated in document order.
#[verifier::external_body]
pub(crate) fn strip_markup(html: &str) -> (r: String)
    ensures
        r@ == text_content_of(html@),
{
    scraper::Html::parse_fragment(html)
        .tree
        .into_iter()
        .filter_map(|node| node.as_text().map(|text| text.text.to_string()))
        .collect::<String>()
}

/// Relies on chrono::Utc::now and chrono::DateTime::timestamp_millis:
/// the current wall-clock time; nothing is promised of the value.
#[verifier::external_body]
pub(crate) fn now_millis() -> i64 {
    chrono::Utc::now().timestamp_millis()
}

} // verus!
