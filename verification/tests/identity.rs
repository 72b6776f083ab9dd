use std::collections::hash_map::DefaultHasher;
use std::hash::Hash;
use std::hash::Hasher;

use ripples::CrawlError;
use ripples::CrawlState;
use ripples::URL_CHAR_LIMIT;
use ripples::UrlId;
use ripples::WebNode;

fn hash_of(id: &UrlId) -> u64 {
    let mut h = DefaultHasher::new();
    id.hash(&mut h);
    h.finish()
}

#[test]
fn identity_equality_and_roundtrip() {
    let s = "https://example.com/some/path?q=1";
    let a = UrlId::create(s).unwrap();
    let b = UrlId::create(s).unwrap();
    assert!(a == b);
    assert_eq!(hash_of(&a), hash_of(&b));
    assert_eq!(a.as_string(), s);
    assert_eq!(b.as_string(), s);
}

#[test]
fn identity_inequality() {
    let a = UrlId::create("https://example.com/a").unwrap();
    let b = UrlId::create("https://example.com/b").unwrap();
    assert!(a != b);
}

#[test]
fn capacity_boundary_at_limit() {
    let exact = "a".repeat(URL_CHAR_LIMIT);
    let id = UrlId::create(&exact).unwrap();
    assert_eq!(id.as_string(), exact);
}

#[test]
fn capacity_boundary_over_limit() {
    let over = "a".repeat(URL_CHAR_LIMIT + 1);
    assert!(matches!(UrlId::create(&over), Err(CrawlError::TooLong)));
}

#[test]
fn webnode_new_and_url_to_string() {
    let node = WebNode::new(CrawlState::Uncrawled, "https://example.com/").unwrap();
    assert_eq!(node.url_to_string(), "https://example.com/");
    assert_eq!(node.state, CrawlState::Uncrawled);
}

#[test]
fn webnode_new_too_long() {
    let over = "a".repeat(URL_CHAR_LIMIT + 1);
    assert!(matches!(
        WebNode::new(CrawlState::Uncrawled, &over),
        Err(CrawlError::TooLong)
    ));
}
