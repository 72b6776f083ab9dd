//! The frontier scheduler: drives the breadth-first crawl as a state
//! machine over the crawl graph. The scheduler never fetches a page
//! itself: `next_action` advances the per-node state machine (marking stub
//! nodes `Complete` without a crawl, and moving to the next depth when the
//! current frontier is exhausted) until it can hand out the next URL to
//! fetch, and `on_fetch` consumes the fetch outcome, filtering the
//! discovered links and growing the graph.

use vstd::prelude::*;

use crate::domain::matches_any;
use crate::domain::url_in_set;
use crate::domain::views_of;
use crate::graph::CrawlGraph;
use crate::graph::CrawlState;
use crate::identity::CrawlError;
use crate::identity::URL_CHAR_LIMIT;
use crate::identity::UrlId;
use crate::links::extract_links;
use crate::links::links_of;

verus! {

/// What the scheduler asks of its caller next.
pub enum Action {
    /// Fetch this node's URL and report the outcome through `on_fetch`.
    Fetch(usize, String),
    /// The crawl is over: the frontier is exhausted or the depth cap is
    /// reached.
    Done,
}

/// A discovered link survives filtering iff its domain is not in the deny
/// set and it fits in a URL identity.
pub open spec fn is_target(link: Seq<char>, deny: Seq<Seq<char>>) -> bool {
    !url_in_set(link, deny) && link.len() <= URL_CHAR_LIMIT
}

/// Whether `u` is the content of some surviving link of `links`.
pub open spec fn is_target_of(links: Seq<Seq<char>>, deny: Seq<Seq<char>>, u: Seq<char>) -> bool {
    exists|k: int| 0 <= k < links.len() && links[k] == u && is_target(links[k], deny)
}

/// Every node listed in `entries` from position `from` on has left the
/// `Uncrawled` state in `g`: the pending work those entries stood for has
/// been taken up.
pub open spec fn drained(g: CrawlGraph, entries: Seq<usize>, from: int) -> bool {
    forall|k: int|
        from <= k < entries.len() ==> g.nodes@[(#[trigger] entries[k]) as int].state
            != CrawlState::Uncrawled
}

/// The breadth-first frontier scheduler, with its crawl graph.
pub struct Crawler {
    pub graph: CrawlGraph,
    /// Node indices awaiting crawl at the current depth.
    pub frontier: Vec<usize>,
    /// Position of the next unprocessed entry of `frontier`.
    pub pos: usize,
    /// Nodes discovered at the current depth, to be crawled at the next.
    pub next_frontier: Vec<usize>,
    pub depth: usize,
    pub depth_cap: usize,
    /// Domains considered fully known: their nodes are never crawled.
    pub stubs: Vec<String>,
    /// Domains whose links are dropped before touching the graph.
    pub deny: Vec<String>,
    /// The node whose fetch is in flight, between `next_action` and
    /// `on_fetch`.
    pub awaiting: Option<usize>,
}

impl Crawler {
    /// Whether a URL's domain is in the stub set.
    pub open spec fn is_stub(self, u: Seq<char>) -> bool {
        url_in_set(u, views_of(self.stubs@))
    }

    /// Well-formedness: the graph invariant, frontier entries that point
    /// into the graph, and an in-flight node that is `InProgress`.
    pub open spec fn wf(self) -> bool {
        &&& self.graph.wf()
        &&& self.pos <= self.frontier@.len()
        &&& forall|k: int|
            0 <= k < self.frontier@.len() ==> (#[trigger] self.frontier@[k])
                < self.graph.nodes@.len()
        &&& forall|k: int|
            0 <= k < self.next_frontier@.len() ==> (#[trigger] self.next_frontier@[k])
                < self.graph.nodes@.len()
        &&& self.awaiting matches Some(i) ==> i < self.graph.nodes@.len()
            && self.graph.nodes@[i as int].state == CrawlState::InProgress
    }

    /// Starts a crawl at `seed_url` with the given stub and deny domain
    /// sets and depth cap. Fails exactly when the seed does not fit in a
    /// URL identity — the only fatal error of a run.
    pub fn new(seed_url: &str, stubs: Vec<String>, deny: Vec<String>, depth_cap: usize) -> (r:
        Result<Crawler, CrawlError>)
        ensures
            r is Ok <==> seed_url@.len() <= URL_CHAR_LIMIT,
            r matches Err(e) ==> e == CrawlError::TooLong,
            r matches Ok(c) ==> c.wf() && c.graph.nodes@.len() == 1 && c.graph.nodes@[0].id@
                == seed_url@ && c.graph.nodes@[0].state == CrawlState::Uncrawled
                && c.graph.edges@.len() == 0 && c.frontier@.len() == 1 && c.frontier@[0] == 0
                && c.pos == 0 && c.next_frontier@.len() == 0 && c.depth == 0 && c.depth_cap
                == depth_cap && c.stubs == stubs && c.deny == deny && c.awaiting is None,
    {
        let id = match UrlId::create(seed_url) {
            Ok(id) => id,
            Err(e) => {
                return Err(e);
            },
        };
        let mut graph = CrawlGraph::new();
        let seed_idx = graph.add_node(id, CrawlState::Uncrawled);
        let mut frontier: Vec<usize> = Vec::new();
        frontier.push(seed_idx);
        Ok(
            Crawler {
                graph,
                frontier,
                pos: 0,
                next_frontier: Vec::new(),
                depth: 0,
                depth_cap,
                stubs,
                deny,
                awaiting: None,
            },
        )
    }

    /// Advances the scheduler to the next node that needs a fetch, or ends
    /// the crawl. Dequeued stub-domain nodes are marked `Complete` without
    /// a fetch; a dequeued node that needs one is marked `InProgress` and
    /// handed out. Node identities, edges and completed states are never
    /// touched.
    pub fn next_action(&mut self) -> (r: Action)
        requires
            old(self).wf(),
            old(self).awaiting is None,
        ensures
            final(self).wf(),
            final(self).graph.nodes@.len() == old(self).graph.nodes@.len(),
            final(self).graph.edges@ == old(self).graph.edges@,
            final(self).stubs == old(self).stubs,
            final(self).deny == old(self).deny,
            final(self).depth_cap == old(self).depth_cap,
            forall|j: int|
                0 <= j < old(self).graph.nodes@.len() ==> (#[trigger] final(self).graph.nodes@[j]).id
                    == old(self).graph.nodes@[j].id,
            forall|j: int|
                0 <= j < old(self).graph.nodes@.len() ==> (#[trigger] final(self).graph.nodes@[j]).state
                    == old(self).graph.nodes@[j].state || (old(self).graph.nodes@[j].state
                    == CrawlState::Uncrawled && (final(self).graph.nodes@[j].state
                    == CrawlState::Complete && old(self).is_stub(old(self).graph.nodes@[j].id@)
                    || final(self).graph.nodes@[j].state == CrawlState::InProgress
                    && final(self).awaiting == Some(j as usize))),
            r matches Action::Fetch(i, url) ==> final(self).awaiting == Some(i) && i < final(self).graph.nodes@.len() && url@ == final(self).graph.nodes@[i as int].id@ && final(self).graph.nodes@[i as int].state == CrawlState::InProgress && !old(self).is_stub(url@),
            r is Done ==> final(self).awaiting is None && (final(self).depth >= final(self).depth_cap || (final(self).pos == final(self).frontier@.len() && final(self).next_frontier@.len() == 0)),
            final(self).depth >= old(self).depth,
            final(self).depth > old(self).depth ==> drained(
                final(self).graph,
                old(self).frontier@,
                old(self).pos as int,
            ),
            r is Done ==> old(self).depth >= old(self).depth_cap || (drained(
                final(self).graph,
                old(self).frontier@,
                old(self).pos as int,
            ) && (final(self).depth >= final(self).depth_cap || drained(
                final(self).graph,
                old(self).next_frontier@,
                0,
            ))),
    {
        let ghost mut swapped: bool = false;
        loop
            invariant
                old(self).wf(),
                self.wf(),
                self.awaiting is None,
                self.graph.nodes@.len() == old(self).graph.nodes@.len(),
                self.graph.edges@ == old(self).graph.edges@,
                self.stubs == old(self).stubs,
                self.deny == old(self).deny,
                self.depth_cap == old(self).depth_cap,
                forall|j: int|
                    0 <= j < old(self).graph.nodes@.len() ==> (#[trigger] self.graph.nodes@[j]).id
                        == old(self).graph.nodes@[j].id,
                forall|j: int|
                    0 <= j < old(self).graph.nodes@.len() ==> (#[trigger] self.graph.nodes@[j]).state
                        == old(self).graph.nodes@[j].state || (old(self).graph.nodes@[j].state
                        == CrawlState::Uncrawled && self.graph.nodes@[j].state
                        == CrawlState::Complete && old(self).is_stub(old(self).graph.nodes@[j].id@)),
                !swapped ==> self.frontier == old(self).frontier && self.next_frontier == old(
                    self,
                ).next_frontier && self.depth == old(self).depth && old(self).pos <= self.pos,
                !swapped ==> forall|k: int|
                    old(self).pos <= k < self.pos ==> self.graph.nodes@[(
                    #[trigger] self.frontier@[k]) as int].state != CrawlState::Uncrawled,
                swapped ==> self.frontier == old(self).next_frontier && self.next_frontier@.len()
                    == 0 && self.depth == old(self).depth + 1 && drained(
                    self.graph,
                    old(self).frontier@,
                    old(self).pos as int,
                ),
                swapped ==> forall|k: int|
                    0 <= k < self.pos ==> self.graph.nodes@[(#[trigger] self.frontier@[k]) as int].state
                        != CrawlState::Uncrawled,
            decreases self.depth_cap - self.depth, self.frontier@.len() - self.pos,
        {
            if self.depth >= self.depth_cap {
                return Action::Done;
            }
            if self.pos == self.frontier.len() {
                if self.next_frontier.len() == 0 {
                    return Action::Done;
                }
                core::mem::swap(&mut self.frontier, &mut self.next_frontier);
                self.next_frontier = Vec::new();
                self.pos = 0;
                self.depth = self.depth + 1;
                proof {
                    swapped = true;
                }
                continue ;
            }
            let i = self.frontier[self.pos];
            self.pos = self.pos + 1;
            if self.graph.state_at(i) != CrawlState::Uncrawled {
                continue ;
            }
            self.graph.set_state(i, CrawlState::InProgress);
            let url = self.graph.url_at(i);
            if matches_any(url.as_str(), &self.stubs) {
                self.graph.set_state(i, CrawlState::Complete);
                proof {
                    if swapped {
                        assert forall|k: int|
                            old(self).pos as int <= k < old(self).frontier@.len() implies self.graph.nodes@[(
                        #[trigger] old(self).frontier@[k]) as int].state != CrawlState::Uncrawled by {
                            assert(old(self).frontier@[k] < self.graph.nodes@.len());
                        }
                    }
                }
                continue ;
            }
            self.awaiting = Some(i);
            proof {
                if swapped {
                    assert forall|k: int|
                        old(self).pos as int <= k < old(self).frontier@.len() implies self.graph.nodes@[(
                    #[trigger] old(self).frontier@[k]) as int].state != CrawlState::Uncrawled by {
                        assert(old(self).frontier@[k] < self.graph.nodes@.len());
                    }
                }
            }
            return Action::Fetch(i, url);
        }
    }

    /// Reports the outcome of the fetch requested by the last
    /// `next_action`. On failure the node becomes `Unreachable` and the
    /// graph is otherwise untouched. On success every extracted link whose
    /// domain is not denied and which fits in an identity is resolved to a
    /// node — created if absent, in state `Uncrawled`, or `Complete` for a
    /// stub domain — plus an edge from the fetched node; newly created
    /// non-stub nodes join the next depth's frontier; existing nodes keep
    /// their state; the fetched node becomes `Complete`.
    pub fn on_fetch(&mut self, content: Option<&str>)
        requires
            old(self).wf(),
            old(self).awaiting is Some,
        ensures
            final(self).wf(),
            final(self).awaiting is None,
            final(self).stubs == old(self).stubs,
            final(self).deny == old(self).deny,
            final(self).depth == old(self).depth,
            final(self).depth_cap == old(self).depth_cap,
            final(self).frontier == old(self).frontier,
            final(self).pos == old(self).pos,
            final(self).graph.nodes@.len() >= old(self).graph.nodes@.len(),
            forall|j: int|
                0 <= j < old(self).graph.nodes@.len() ==> (#[trigger] final(self).graph.nodes@[j]).id
                    == old(self).graph.nodes@[j].id,
            forall|j: int|
                0 <= j < old(self).graph.nodes@.len() && j != old(self).awaiting->0 ==> (
                #[trigger] final(self).graph.nodes@[j]).state == old(self).graph.nodes@[j].state,
            forall|k: int|
                0 <= k < old(self).graph.edges@.len() ==> (#[trigger] final(self).graph.edges@[k])
                    == old(self).graph.edges@[k],
            content is None ==> final(self).graph.nodes@.len() == old(self).graph.nodes@.len()
                && final(self).graph.edges@ == old(self).graph.edges@ && final(self).graph.nodes@[old(self).awaiting->0 as int].state == CrawlState::Unreachable && final(self).next_frontier == old(self).next_frontier,
            content matches Some(page) ==> ({
                let i = old(self).awaiting->0 as int;
                let links = links_of(page@);
                let deny = views_of(old(self).deny@);
                &&& final(self).graph.nodes@[i].state == CrawlState::Complete
                &&& forall|k: int|
                    0 <= k < links.len() && is_target(#[trigger] links[k], deny) ==> exists|j: int|
                        0 <= j < final(self).graph.nodes@.len() && final(self).graph.nodes@[j].id@
                            == links[k] && final(self).graph.has_edge(i, j)
                &&& forall|j: int|
                    old(self).graph.nodes@.len() <= j < final(self).graph.nodes@.len()
                        ==> is_target_of(links, deny, (#[trigger] final(self).graph.nodes@[j]).id@)
                        && final(self).graph.nodes@[j].state == (if old(self).is_stub(
                        final(self).graph.nodes@[j].id@,
                    ) {
                        CrawlState::Complete
                    } else {
                        CrawlState::Uncrawled
                    })
                &&& forall|k: int|
                    old(self).graph.edges@.len() <= k < final(self).graph.edges@.len() ==> (
                    #[trigger] final(self).graph.edges@[k]).0 == i && is_target_of(
                        links,
                        deny,
                        final(self).graph.nodes@[final(self).graph.edges@[k].1 as int].id@,
                    )
                &&& final(self).next_frontier@.len() >= old(self).next_frontier@.len()
                &&& forall|k: int|
                    0 <= k < old(self).next_frontier@.len() ==> (#[trigger] final(self).next_frontier@[k]) == old(self).next_frontier@[k]
                &&& forall|k: int|
                    old(self).next_frontier@.len() <= k < final(self).next_frontier@.len() ==> old(self).graph.nodes@.len() <= (#[trigger] final(self).next_frontier@[k]) < final(self).graph.nodes@.len() && final(self).graph.nodes@[final(self).next_frontier@[k] as int].state == CrawlState::Uncrawled
                &&& forall|j: int|
                    old(self).graph.nodes@.len() <= j < final(self).graph.nodes@.len() && (
                    #[trigger] final(self).graph.nodes@[j]).state == CrawlState::Uncrawled
                        ==> exists|m: int|
                        old(self).next_frontier@.len() <= m < final(self).next_frontier@.len()
                            && final(self).next_frontier@[m] as int == j
            }),
    {
        let i = self.awaiting.unwrap();
        self.awaiting = None;
        let page = match content {
            None => {
                self.graph.set_state(i, CrawlState::Unreachable);
                return ;
            },
            Some(p) => p,
        };
        let links = extract_links(page);
        let ghost links_v = links_of(page@);
        let ghost deny_v = views_of(self.deny@);
        let ghost old_nodes = self.graph.nodes@;
        let ghost old_edges = self.graph.edges@;
        let ghost old_next = self.next_frontier@;
        let n = links.len();
        let mut k: usize = 0;
        while k < n
            invariant
                self.graph.wf(),
                self.awaiting is None,
                i < old_nodes.len(),
                n == links@.len(),
                k <= n,
                views_of(links@) == links_v,
                deny_v == views_of(self.deny@),
                old_nodes == old(self).graph.nodes@,
                old_edges == old(self).graph.edges@,
                old_next == old(self).next_frontier@,
                self.stubs == old(self).stubs,
                self.deny == old(self).deny,
                self.frontier == old(self).frontier,
                self.pos == old(self).pos,
                self.depth == old(self).depth,
                self.depth_cap == old(self).depth_cap,
                self.graph.nodes@.len() >= old_nodes.len(),
                self.graph.edges@.len() >= old_edges.len(),
                forall|j: int|
                    0 <= j < old_nodes.len() ==> (#[trigger] self.graph.nodes@[j]).id
                        == old_nodes[j].id,
                forall|j: int|
                    0 <= j < old_nodes.len() ==> (#[trigger] self.graph.nodes@[j]).state
                        == old_nodes[j].state,
                forall|e: int|
                    0 <= e < old_edges.len() ==> (#[trigger] self.graph.edges@[e]) == old_edges[e],
                forall|m: int|
                    0 <= m < k && is_target(#[trigger] links_v[m], deny_v) ==> exists|j: int|
                        0 <= j < self.graph.nodes@.len() && self.graph.nodes@[j].id@ == links_v[m]
                            && self.graph.has_edge(i as int, j),
                forall|j: int|
                    old_nodes.len() <= j < self.graph.nodes@.len() ==> is_target_of(
                        links_v,
                        deny_v,
                        (#[trigger] self.graph.nodes@[j]).id@,
                    ) && self.graph.nodes@[j].state == (if old(self).is_stub(
                        self.graph.nodes@[j].id@,
                    ) {
                        CrawlState::Complete
                    } else {
                        CrawlState::Uncrawled
                    }),
                forall|e: int|
                    old_edges.len() <= e < self.graph.edges@.len() ==> (
                    #[trigger] self.graph.edges@[e]).0 == i && is_target_of(
                        links_v,
                        deny_v,
                        self.graph.nodes@[self.graph.edges@[e].1 as int].id@,
                    ),
                self.next_frontier@.len() >= old_next.len(),
                forall|m: int|
                    0 <= m < old_next.len() ==> (#[trigger] self.next_frontier@[m]) == old_next[m],
                forall|m: int|
                    old_next.len() <= m < self.next_frontier@.len() ==> old_nodes.len() <= (
                    #[trigger] self.next_frontier@[m]) < self.graph.nodes@.len()
                        && self.graph.nodes@[self.next_frontier@[m] as int].state
                        == CrawlState::Uncrawled,
                forall|j: int|
                    old_nodes.len() <= j < self.graph.nodes@.len() && (
                    #[trigger] self.graph.nodes@[j]).state == CrawlState::Uncrawled ==> exists|
                        m: int,
                    |
                        old_next.len() <= m < self.next_frontier@.len()
                            && self.next_frontier@[m] as int == j,
                forall|m: int|
                    0 <= m < self.frontier@.len() ==> (#[trigger] self.frontier@[m])
                        < self.graph.nodes@.len(),
                self.pos <= self.frontier@.len(),
            decreases n - k,
        {
            let ghost pre = self.graph;
            let ghost pre_next = self.next_frontier@;
            let link: &String = &links[k];
            if !matches_any(link.as_str(), &self.deny) {
                match UrlId::create(link.as_str()) {
                    Err(_) => {},
                    Ok(id) => {
                        proof {
                            assert(is_target(links_v[k as int], deny_v));
                        }
                        let is_stub_link = matches_any(link.as_str(), &self.stubs);
                        let st = if is_stub_link {
                            CrawlState::Complete
                        } else {
                            CrawlState::Uncrawled
                        };
                        let before = self.graph.node_count();
                        let j = self.graph.add_node(id, st);
                        self.graph.add_edge(i, j);
                        if j == before && !is_stub_link {
                            self.next_frontier.push(j);
                        }
                        proof {
                            assert(self.graph.nodes@[j as int].id@ == links_v[k as int]);
                            assert(self.graph.has_edge(i as int, j as int));
                        }
                    },
                }
            }
            proof {
                assert forall|e: int| 0 <= e < pre.edges@.len() implies self.graph.edges@[e]
                    == pre.edges@[e] by {}
                assert forall|m: int|
                    0 <= m < k && is_target(#[trigger] links_v[m], deny_v) implies exists|j: int|
                    0 <= j < self.graph.nodes@.len() && self.graph.nodes@[j].id@ == links_v[m]
                        && self.graph.has_edge(i as int, j) by {
                    let j = choose|j: int|
                        0 <= j < pre.nodes@.len() && pre.nodes@[j].id@ == links_v[m]
                            && pre.has_edge(i as int, j);
                    assert(self.graph.nodes@[j].id@ == links_v[m]);
                    let e = choose|e: int|
                        0 <= e < pre.edges@.len() && pre.edges@[e].0 == i && pre.edges@[e].1 == j;
                    assert(self.graph.edges@[e].0 == i && self.graph.edges@[e].1 == j);
                    assert(self.graph.has_edge(i as int, j));
                }
                assert forall|j: int|
                    old_nodes.len() <= j < self.graph.nodes@.len() && (
                    #[trigger] self.graph.nodes@[j]).state == CrawlState::Uncrawled implies exists|
                    m: int,
                |
                    old_next.len() <= m < self.next_frontier@.len() && self.next_frontier@[m] as int
                        == j by {
                    if j < pre.nodes@.len() {
                        let m = choose|m: int|
                            old_next.len() <= m < pre_next.len() && pre_next[m] as int == j;
                        assert(self.next_frontier@[m] as int == j);
                    } else {
                        assert(self.next_frontier@[self.next_frontier@.len() - 1] as int == j);
                    }
                }
            }
            k += 1;
        }
        let ghost done = self.graph;
        self.graph.set_state(i, CrawlState::Complete);
        proof {
            assert forall|m: int|
                0 <= m < links_v.len() && is_target(#[trigger] links_v[m], deny_v) implies exists|
                j: int,
            |
                0 <= j < self.graph.nodes@.len() && self.graph.nodes@[j].id@ == links_v[m]
                    && self.graph.has_edge(i as int, j) by {
                let j = choose|j: int|
                    0 <= j < done.nodes@.len() && done.nodes@[j].id@ == links_v[m] && done.has_edge(
                        i as int,
                        j,
                    );
                assert(self.graph.nodes@[j].id@ == links_v[m]);
                let e = choose|e: int|
                    0 <= e < done.edges@.len() && done.edges@[e].0 == i && done.edges@[e].1 == j;
                assert(self.graph.edges@[e].0 == i && self.graph.edges@[e].1 == j);
                assert(self.graph.has_edge(i as int, j));
            }
            assert forall|j: int|
                old(self).graph.nodes@.len() <= j < self.graph.nodes@.len() && (
                #[trigger] self.graph.nodes@[j]).state == CrawlState::Uncrawled implies exists|
                m: int,
            |
                old(self).next_frontier@.len() <= m < self.next_frontier@.len()
                    && self.next_frontier@[m] as int == j by {
                assert(self.graph.nodes@[j] == done.nodes@[j]);
            }
        }
    }
}

} // verus!
