use skywrite::metadata::resolve_metadata;

const PAGE_WITH_BOTH: &str = "<html><head>\
<meta property=\"og:description\" content=\"From the page\">\
<meta property=\"og:image\" content=\"http://img.feed.com/cover.jpg\">\
</head><body><p>Body text</p></body></html>";

const PAGE_WITH_BAD_IMAGE: &str = "<html><head>\
<meta property=\"og:image\" content=\"not a parseable url\">\
</head><body></body></html>";

const EMPTY_PAGE: &str = "<html><head></head><body></body></html>";

#[test]
fn title_prefers_the_entry_title() {
    let m = resolve_metadata(
        &Some(String::from("Entry title")),
        &None,
        &String::from("http://feed.com/a"),
        &String::from(EMPTY_PAGE),
    );
    assert_eq!(m.title, "Entry title");
}

#[test]
fn title_falls_back_to_the_canonical_link() {
    let m = resolve_metadata(
        &None,
        &None,
        &String::from("http://feed.com/a"),
        &String::from(EMPTY_PAGE),
    );
    assert_eq!(m.title, "http://feed.com/a");
}

#[test]
fn description_strips_markup_from_the_summary() {
    let m = resolve_metadata(
        &None,
        &Some(String::from("<p>Hi <b>there</b>, reader</p>")),
        &String::from("http://feed.com/a"),
        &String::from(PAGE_WITH_BOTH),
    );
    assert_eq!(m.description, "Hi there, reader");
}

#[test]
fn description_falls_back_to_the_page_meta_attribute() {
    let m = resolve_metadata(
        &None,
        &None,
        &String::from("http://feed.com/a"),
        &String::from(PAGE_WITH_BOTH),
    );
    assert_eq!(m.description, "From the page");
}

#[test]
fn description_falls_back_to_the_fixed_literal() {
    let m = resolve_metadata(
        &None,
        &None,
        &String::from("http://feed.com/a"),
        &String::from(EMPTY_PAGE),
    );
    assert_eq!(m.description, "This site has not provided a description");
}

#[test]
fn thumbnail_comes_from_the_page_image_attribute() {
    let m = resolve_metadata(
        &None,
        &None,
        &String::from("http://feed.com/a"),
        &String::from(PAGE_WITH_BOTH),
    );
    assert_eq!(m.thumbnail, Some(String::from("http://img.feed.com/cover.jpg")));
}

#[test]
fn unparseable_thumbnail_is_dropped() {
    let m = resolve_metadata(
        &None,
        &None,
        &String::from("http://feed.com/a"),
        &String::from(PAGE_WITH_BAD_IMAGE),
    );
    assert_eq!(m.thumbnail, None);
}

#[test]
fn absent_thumbnail_stays_absent() {
    let m = resolve_metadata(
        &None,
        &None,
        &String::from("http://feed.com/a"),
        &String::from(EMPTY_PAGE),
    );
    assert_eq!(m.thumbnail, None);
}
