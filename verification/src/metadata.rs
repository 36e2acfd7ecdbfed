//! Page metadata resolution: the fallback chains that fill a post's
//! preview from heterogeneous, partially-missing sources.
//!
//! The title falls back from the entry's own title to the canonical
//! link, so a post is never titleless. The description prefers the
//! entry's summary with its markup stripped, then the page's
//! `og:description` meta attribute, then a fixed literal. The
//! thumbnail is the page's `og:image` attribute when it parses as a
//! URL, else nothing. The caller fetches the page once and hands the
//! same text here, so both description fallback and thumbnail lookup
//! read one consistent snapshot.

use crate::web::is_parseable_url;
use crate::web::select_attr;
use crate::web::selected_attr_of;
use crate::web::strip_markup;
use crate::web::text_content_of;
use crate::web::url_parse_ok;
use vstd::prelude::*;
use vstd::string::*;

verus! {

/// The selector for the page's `og:description` meta element.
pub open spec fn og_description_selector() -> Seq<char> {
    "meta[property=\"og:description\"]"@
}

/// The selector for the page's `og:image` meta element.
pub open spec fn og_image_selector() -> Seq<char> {
    "meta[property=\"og:image\"]"@
}

/// The attribute read off a matched meta element.
pub open spec fn content_attr() -> Seq<char> {
    "content"@
}

/// The fixed fallback when neither the entry nor the page offers a
/// description.
pub open spec fn default_description() -> Seq<char> {
    "This site has not provided a description"@
}

/// Metadata resolved for one entry, ready for the post's embed.
pub struct PageMetadata {
    pub title: String,
    pub description: String,
    pub thumbnail: Option<String>,
}

/// The entry's title when present, else the canonical link.
pub open spec fn spec_resolved_title(title: Option<Seq<char>>, canonical: Seq<char>) -> Seq<char> {
    match title {
        Some(t) => t,
        None => canonical,
    }
}

/// The entry's summary stripped to its text, else the page's
/// `og:description`, else the fixed literal.
pub open spec fn spec_resolved_description(
    summary: Option<Seq<char>>,
    page: Seq<char>,
) -> Seq<char> {
    match summary {
        Some(s) => text_content_of(s),
        None => match selected_attr_of(page, og_description_selector(), content_attr()) {
            Some(d) => d,
            None => default_description(),
        },
    }
}

/// The page's `og:image` when present and parseable as a URL, else
/// nothing.
pub open spec fn spec_resolved_thumbnail(page: Seq<char>) -> Option<Seq<char>> {
    match selected_attr_of(page, og_image_selector(), content_attr()) {
        Some(u) => if url_parse_ok(u) {
            Some(u)
        } else {
            None
        },
        None => None,
    }
}

/// Resolves the metadata for one entry from the entry's own fields and
/// one fetched snapshot of the linked page.
pub fn resolve_metadata(
    title: &Option<String>,
    summary: &Option<String>,
    canonical: &String,
    page_html: &String,
) -> (m: PageMetadata)
    ensures
        m.title@ == spec_resolved_title(title.deep_view(), canonical@),
        m.description@ == spec_resolved_description(summary.deep_view(), page_html@),
        m.thumbnail.deep_view() == spec_resolved_thumbnail(page_html@),
{
    let resolved_title = match title {
        Some(t) => t.clone(),
        None => canonical.clone(),
    };
    let resolved_description = match summary {
        Some(s) => strip_markup(s.as_str()),
        None => match select_attr(
            page_html.as_str(),
            "meta[property=\"og:description\"]",
            "content",
        ) {
            Some(d) => d,
            None => String::from_str("This site has not provided a description"),
        },
    };
    let thumbnail = match select_attr(
        page_html.as_str(),
        "meta[property=\"og:image\"]",
        "content",
    ) {
        Some(u) => if is_parseable_url(u.as_str()) {
            Some(u)
        } else {
            None
        },
        None => None,
    };
    PageMetadata { title: resolved_title, description: resolved_description, thumbnail }
}

} // verus!
