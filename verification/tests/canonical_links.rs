use skywrite::links::FeedLink;
use skywrite::links::select_canonical_link;

fn link(href: &str) -> FeedLink {
    FeedLink { href: String::from(href) }
}

#[test]
fn prefers_the_same_domain_link() {
    let links = vec![link("http://other.com/a"), link("http://feed.com/b")];
    let selected = select_canonical_link(&links, &Some(String::from("feed.com")));
    assert_eq!(selected, Some(String::from("http://feed.com/b")));
}

#[test]
fn falls_back_to_the_first_link() {
    let links = vec![link("http://other.com/a"), link("http://elsewhere.org/b")];
    let selected = select_canonical_link(&links, &Some(String::from("feed.com")));
    assert_eq!(selected, Some(String::from("http://other.com/a")));
}

#[test]
fn first_of_several_same_domain_links_wins() {
    let links = vec![
        link("http://other.com/a"),
        link("http://feed.com/first"),
        link("http://feed.com/second"),
    ];
    let selected = select_canonical_link(&links, &Some(String::from("feed.com")));
    assert_eq!(selected, Some(String::from("http://feed.com/first")));
}

#[test]
fn no_links_yields_none() {
    let links: Vec<FeedLink> = Vec::new();
    let selected = select_canonical_link(&links, &Some(String::from("feed.com")));
    assert_eq!(selected, None);
}

#[test]
fn malformed_href_cannot_win_the_preference() {
    let links = vec![link("not a url at all"), link("http://feed.com/b")];
    let selected = select_canonical_link(&links, &Some(String::from("feed.com")));
    assert_eq!(selected, Some(String::from("http://feed.com/b")));
}

#[test]
fn malformed_href_stays_eligible_as_fallback() {
    let links = vec![link("not a url at all"), link("http://other.com/b")];
    let selected = select_canonical_link(&links, &Some(String::from("feed.com")));
    assert_eq!(selected, Some(String::from("not a url at all")));
}

#[test]
fn feed_without_domain_prefers_nothing() {
    let links = vec![link("http://other.com/a"), link("http://feed.com/b")];
    let selected = select_canonical_link(&links, &None);
    assert_eq!(selected, Some(String::from("http://other.com/a")));
}
