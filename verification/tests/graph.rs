use ripples::CrawlGraph;
use ripples::CrawlState;
use ripples::UrlId;

#[test]
fn add_node_dedups_by_identity() {
    let mut g = CrawlGraph::new();
    let a = UrlId::create("https://example.com/").unwrap();
    let b = UrlId::create("https://example.com/").unwrap();
    let i = g.add_node(a, CrawlState::Uncrawled);
    let j = g.add_node(b, CrawlState::Complete);
    assert_eq!(i, j);
    assert_eq!(g.node_count(), 1);
    // a later add_node never resets the state
    assert_eq!(g.state_at(i), CrawlState::Uncrawled);
}

#[test]
fn set_state_is_the_only_mutation() {
    let mut g = CrawlGraph::new();
    let id = UrlId::create("https://example.com/").unwrap();
    let i = g.add_node(id, CrawlState::Uncrawled);
    g.set_state(i, CrawlState::InProgress);
    assert_eq!(g.state_at(i), CrawlState::InProgress);
    let again = UrlId::create("https://example.com/").unwrap();
    g.add_node(again, CrawlState::Uncrawled);
    assert_eq!(g.state_at(i), CrawlState::InProgress);
    assert_eq!(g.url_at(i), "https://example.com/");
}

#[test]
fn contains_by_content() {
    let mut g = CrawlGraph::new();
    let id = UrlId::create("https://example.com/").unwrap();
    g.add_node(id, CrawlState::Uncrawled);
    let same = UrlId::create("https://example.com/").unwrap();
    let other = UrlId::create("https://other.com/").unwrap();
    assert!(g.contains(&same));
    assert!(!g.contains(&other));
}

#[test]
fn add_edge_is_idempotent() {
    let mut g = CrawlGraph::new();
    let a = UrlId::create("https://a.com/").unwrap();
    let b = UrlId::create("https://b.com/").unwrap();
    let i = g.add_node(a, CrawlState::Uncrawled);
    let j = g.add_node(b, CrawlState::Uncrawled);
    g.add_edge(i, j);
    g.add_edge(i, j);
    assert_eq!(g.edge_count(), 1);
    assert_eq!(g.edge_at(0), (i, j));
}

#[test]
fn distinct_edges_both_kept() {
    let mut g = CrawlGraph::new();
    let a = UrlId::create("https://a.com/").unwrap();
    let b = UrlId::create("https://b.com/").unwrap();
    let i = g.add_node(a, CrawlState::Uncrawled);
    let j = g.add_node(b, CrawlState::Uncrawled);
    g.add_edge(i, j);
    g.add_edge(j, i);
    g.add_edge(i, j);
    assert_eq!(g.edge_count(), 2);
    assert_eq!(g.edge_at(0), (i, j));
    assert_eq!(g.edge_at(1), (j, i));
}
