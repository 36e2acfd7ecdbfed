//! Post assembly: the pure combination of entry fields, canonical
//! link, resolved metadata and configured languages into a complete
//! outbound payload. No I/O and no failure modes.

use crate::metadata::PageMetadata;
use vstd::prelude::*;
use vstd::string::*;

verus! {

/// The display-text title used when the entry has none.
pub open spec fn default_title() -> Seq<char> {
    "New post"@
}

/// The separator between title and link in the display text.
pub open spec fn text_separator() -> Seq<char> {
    " - "@
}

/// The display text: `"{title or the default} - {canonical link}"`.
pub open spec fn spec_post_text(title: Option<Seq<char>>, canonical: Seq<char>) -> Seq<char> {
    (match title {
        Some(t) => t,
        None => default_title(),
    }) + text_separator() + canonical
}

/// The creation timestamp: the entry's published time when present,
/// else the epoch sentinel — never the current wall clock, so the
/// original publish time's provenance is preserved.
pub open spec fn spec_post_created_at(published: Option<i64>) -> i64 {
    match published {
        Some(ts) => ts,
        None => 0,
    }
}

/// Structured preview attached to an outbound post.
pub struct PostEmbed {
    pub title: String,
    pub description: String,
    pub uri: String,
    pub thumbnail_url: Option<String>,
}

/// The fully assembled object handed to the external publish
/// capability.
pub struct PostPayload {
    pub text: String,
    pub languages: Vec<String>,
    pub created_at: i64,
    pub embed: Option<PostEmbed>,
}

/// Combines one entry's fields, its canonical link, the resolved page
/// metadata and the configured language tags into a payload. The embed
/// is always populated for a resolvable entry.
pub fn assemble_post(
    title: &Option<String>,
    published: Option<i64>,
    canonical: &String,
    metadata: PageMetadata,
    languages: Vec<String>,
) -> (p: PostPayload)
    ensures
        p.text@ == spec_post_text(title.deep_view(), canonical@),
        p.created_at == spec_post_created_at(published),
        p.languages == languages,
        p.embed matches Some(e) && e.title == metadata.title && e.description
            == metadata.description && e.uri@ == canonical@ && e.thumbnail_url
            == metadata.thumbnail,
{
    let mut text = match title {
        Some(t) => t.clone(),
        None => String::from_str("New post"),
    };
    text.append(" - ");
    text.append(canonical.as_str());
    let created_at: i64 = match published {
        Some(ts) => ts,
        None => 0,
    };
    let embed = PostEmbed {
        title: metadata.title,
        description: metadata.description,
        uri: canonical.clone(),
        thumbnail_url: metadata.thumbnail,
    };
    PostPayload { text, languages, created_at, embed: Some(embed) }
}

} // verus!
