use ripples::engine::Action;
use ripples::engine::Crawler;
use ripples::CrawlError;
use ripples::CrawlState;
use ripples::URL_CHAR_LIMIT;

fn set(domains: &[&str]) -> Vec<String> {
    domains.iter().map(|d| d.to_string()).collect()
}

fn index_of(c: &Crawler, url: &str) -> Option<usize> {
    (0..c.graph.node_count()).find(|&i| c.graph.url_at(i) == url)
}

fn edges_of(c: &Crawler) -> Vec<(usize, usize)> {
    (0..c.graph.edge_count()).map(|k| c.graph.edge_at(k)).collect()
}

#[test]
fn scenario_stub_deny_and_depth_cap() {
    let mut c = Crawler::new(
        "https://example.com/",
        set(&["stub.com"]),
        set(&["ads.example"]),
        1,
    )
    .unwrap();

    let (root, url) = match c.next_action() {
        Action::Fetch(i, url) => (i, url),
        Action::Done => panic!("expected a fetch for the seed"),
    };
    assert_eq!(url, "https://example.com/");

    c.on_fetch(Some(
        "<html><body>\
         <a href=\"https://stub.com/x\">s</a>\
         <a href=\"https://ads.example/y\">a</a>\
         <a href=\"https://child.com/z\">c</a>\
         </body></html>",
    ));

    assert!(matches!(c.next_action(), Action::Done));

    assert_eq!(c.graph.node_count(), 3);
    assert_eq!(c.graph.state_at(root), CrawlState::Complete);
    let stub = index_of(&c, "https://stub.com/x").expect("stub node");
    assert_eq!(c.graph.state_at(stub), CrawlState::Complete);
    let child = index_of(&c, "https://child.com/z").expect("child node");
    assert_eq!(c.graph.state_at(child), CrawlState::Uncrawled);
    assert!(index_of(&c, "https://ads.example/y").is_none());

    let edges = edges_of(&c);
    assert_eq!(edges.len(), 2);
    assert!(edges.contains(&(root, stub)));
    assert!(edges.contains(&(root, child)));
}

#[test]
fn scenario_seed_fetch_fails() {
    let mut c = Crawler::new("https://example.com/", set(&[]), set(&[]), 2).unwrap();
    match c.next_action() {
        Action::Fetch(_, url) => assert_eq!(url, "https://example.com/"),
        Action::Done => panic!("expected a fetch for the seed"),
    }
    c.on_fetch(None);
    assert!(matches!(c.next_action(), Action::Done));
    assert_eq!(c.graph.node_count(), 1);
    assert_eq!(c.graph.state_at(0), CrawlState::Unreachable);
    assert_eq!(c.graph.edge_count(), 0);
}

#[test]
fn scenario_link_back_to_seed() {
    let mut c = Crawler::new("https://example.com/", set(&[]), set(&[]), 2).unwrap();
    match c.next_action() {
        Action::Fetch(_, url) => assert_eq!(url, "https://example.com/"),
        Action::Done => panic!("expected a fetch for the seed"),
    }
    c.on_fetch(Some("<a href=\"https://example.com/\">home</a>"));
    assert!(matches!(c.next_action(), Action::Done));
    // no duplicate node; the self-loop edge is kept
    assert_eq!(c.graph.node_count(), 1);
    assert_eq!(c.graph.edge_count(), 1);
    assert_eq!(c.graph.edge_at(0), (0, 0));
    assert_eq!(c.graph.state_at(0), CrawlState::Complete);
}

#[test]
fn stub_seed_is_never_fetched() {
    let mut c = Crawler::new("https://stub.com/", set(&["stub.com"]), set(&[]), 2).unwrap();
    assert!(matches!(c.next_action(), Action::Done));
    assert_eq!(c.graph.node_count(), 1);
    assert_eq!(c.graph.state_at(0), CrawlState::Complete);
    assert_eq!(c.graph.edge_count(), 0);
}

#[test]
fn depth_cap_zero_crawls_nothing() {
    let mut c = Crawler::new("https://example.com/", set(&[]), set(&[]), 0).unwrap();
    assert!(matches!(c.next_action(), Action::Done));
    assert_eq!(c.graph.node_count(), 1);
    assert_eq!(c.graph.state_at(0), CrawlState::Uncrawled);
}

#[test]
fn crawl_reaches_second_depth() {
    let mut c = Crawler::new("https://example.com/", set(&[]), set(&[]), 2).unwrap();
    match c.next_action() {
        Action::Fetch(_, url) => assert_eq!(url, "https://example.com/"),
        Action::Done => panic!("expected a fetch for the seed"),
    }
    c.on_fetch(Some("<a href=\"https://child.com/\">c</a>"));
    let (child, url) = match c.next_action() {
        Action::Fetch(i, url) => (i, url),
        Action::Done => panic!("expected a fetch for the child"),
    };
    assert_eq!(url, "https://child.com/");
    c.on_fetch(Some("<a href=\"https://grandchild.com/\">g</a>"));
    assert!(matches!(c.next_action(), Action::Done));

    assert_eq!(c.graph.node_count(), 3);
    assert_eq!(c.graph.state_at(child), CrawlState::Complete);
    let grandchild = index_of(&c, "https://grandchild.com/").expect("grandchild node");
    assert_eq!(c.graph.state_at(grandchild), CrawlState::Uncrawled);
    let edges = edges_of(&c);
    assert!(edges.contains(&(0, child)));
    assert!(edges.contains(&(child, grandchild)));
}

#[test]
fn too_long_discovered_link_is_skipped() {
    let mut c = Crawler::new("https://example.com/", set(&[]), set(&[]), 1).unwrap();
    match c.next_action() {
        Action::Fetch(_, _) => {}
        Action::Done => panic!("expected a fetch for the seed"),
    }
    let long_link = format!(
        "<a href=\"https://long.com/{}\">l</a><a href=\"https://ok.com/\">o</a>",
        "a".repeat(URL_CHAR_LIMIT),
    );
    c.on_fetch(Some(&long_link));
    assert!(matches!(c.next_action(), Action::Done));
    assert_eq!(c.graph.node_count(), 2);
    assert!(index_of(&c, "https://ok.com/").is_some());
    assert_eq!(c.graph.edge_count(), 1);
}

#[test]
fn too_long_seed_is_fatal() {
    let seed = format!("https://example.com/{}", "a".repeat(URL_CHAR_LIMIT));
    assert!(matches!(
        Crawler::new(&seed, set(&[]), set(&[]), 2),
        Err(CrawlError::TooLong)
    ));
}

#[test]
fn link_elements_are_extracted_too() {
    let mut c = Crawler::new("https://example.com/", set(&[]), set(&[]), 1).unwrap();
    match c.next_action() {
        Action::Fetch(_, _) => {}
        Action::Done => panic!("expected a fetch for the seed"),
    }
    c.on_fetch(Some(
        "<html><head><link rel=\"stylesheet\" href=\"https://use.typekit.net/style.css\"></head>\
         <body><a href=\"https://child.com/\">c</a></body></html>",
    ));
    assert_eq!(c.graph.node_count(), 3);
    assert!(index_of(&c, "https://use.typekit.net/style.css").is_some());
    assert!(index_of(&c, "https://child.com/").is_some());
}
