use mor_blogger_ui_logic::cursor::compose_cursor;
use mor_blogger_ui_logic::cursor::extract_url;
use mor_blogger_ui_logic::static_pages::community_pages_from_feed;
use mor_blogger_ui_logic::static_pages::inject_static_page;
use mor_blogger_ui_logic::static_pages::CommunityPage;
use mor_blogger_ui_logic::static_pages::FeedEntry;

/// Reads a Blogger JSON feed the way the hub fetch does: a missing `entry`
/// list is an empty feed, each entry has a `$t` title and maybe a `$t` body.
fn parse(body: &str) -> Vec<CommunityPage> {
    let root: serde_json::Value = serde_json::from_str(body).unwrap();
    let entries: Vec<FeedEntry> = match root["feed"]["entry"].as_array() {
        Some(list) => list
            .iter()
            .map(|e| FeedEntry {
                title: e["title"]["$t"].as_str().unwrap().to_string(),
                content: e["content"]["$t"].as_str().map(|s| s.to_string()),
            })
            .collect(),
        None => Vec::new(),
    };
    community_pages_from_feed(&entries)
}

#[test]
fn compose_and_extract_roundtrip() {
    assert_eq!(compose_cursor("", "0", "0"), "auto");
    assert_eq!(
        compose_cursor("https://x/c.png", "4", "2"),
        "url('https://x/c.png') 4 2, auto"
    );
    // Non-numeric hotspot falls back to 0.
    assert_eq!(compose_cursor("/c.svg", "", "bad"), "url('/c.svg') 0 0, auto");
    // CSS-breaking chars are stripped from the URL.
    assert_eq!(compose_cursor("a';}body{x", "0", "0"), "url('abodyx') 0 0, auto");
    // extract pulls a plain url back out, but skips data: presets.
    assert_eq!(extract_url("url('/c.svg') 4 2, auto"), "/c.svg");
    assert_eq!(extract_url("url('data:image/svg+xml;base64,AAA'), auto"), "");
    assert_eq!(extract_url("auto"), "");
}

#[test]
fn empty_feed_has_no_entry_key() {
    // Blogger omits "entry" entirely when 0 posts — must not error.
    assert!(parse(r#"{"feed":{}}"#).is_empty());
}

#[test]
fn inject_targets_real_content_container() {
    let out = inject_static_page("<html><head></head><body></body></html>", "<p>HELLO</p>");
    assert!(out.contains(".canvas-content"), "must target the real container");
    assert!(!out.contains("mor-content-target"), "dead target id must be gone");
    assert!(out.contains("<p>HELLO</p>"), "static html must be embedded");
}

#[test]
fn populated_feed_maps_title_and_html() {
    let body = r#"{"feed":{"entry":[
        {"title":{"$t":"Gallery"},"content":{"$t":"<div>art</div>"}},
        {"title":{"$t":"NoBody"}}
    ]}}"#;
    let pages = parse(body);
    // entry without content is dropped
    assert_eq!(pages.len(), 1);
    assert_eq!(pages[0].title, "Gallery");
    assert_eq!(pages[0].html, "<div>art</div>");
}
