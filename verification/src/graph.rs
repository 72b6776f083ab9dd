//! The crawl graph: a directed graph over web nodes, deduplicated by URL
//! identity. The graph owns all node storage in an arena (`Vec`); a node
//! reference is an index into that arena, so a state change made through
//! `set_state` is visible to every holder of the index.

use vstd::prelude::*;

use crate::identity::CrawlError;
use crate::identity::URL_CHAR_LIMIT;
use crate::identity::UrlId;

verus! {

/// Per-node crawl lifecycle.
#[derive(Clone, Copy, PartialEq, Eq, Structural, Debug)]
pub enum CrawlState {
    Uncrawled,
    InProgress,
    Complete,
    Unreachable,
}

/// A node of the crawl graph: a URL identity plus its crawl state.
pub struct WebNode {
    pub id: UrlId,
    pub state: CrawlState,
}

impl WebNode {
    /// Builds a node for `url_str`; fails exactly when the URL does not fit
    /// in an identity.
    pub fn new(state: CrawlState, url_str: &str) -> (r: Result<WebNode, CrawlError>)
        ensures
            r is Ok <==> url_str@.len() <= URL_CHAR_LIMIT,
            r matches Ok(n) ==> n.id@ == url_str@ && n.state == state,
            r matches Err(e) ==> e == CrawlError::TooLong,
    {
        match UrlId::create(url_str) {
            Ok(id) => Ok(WebNode { id, state }),
            Err(e) => Err(e),
        }
    }

    /// The node's URL content as a string.
    pub fn url_to_string(&self) -> (r: String)
        ensures
            r@ == self.id@,
    {
        self.id.as_string()
    }
}

/// A directed graph over web nodes. Nodes are unique by URL content; edges
/// are unweighted ordered pairs of node indices without duplicates.
pub struct CrawlGraph {
    pub nodes: Vec<WebNode>,
    pub edges: Vec<(usize, usize)>,
}

impl CrawlGraph {
    /// Whether some node holds the URL content `u`.
    pub open spec fn contains_id(self, u: Seq<char>) -> bool {
        exists|j: int| 0 <= j < self.nodes@.len() && self.nodes@[j].id@ == u
    }

    /// Whether the edge from node `a` to node `b` is present.
    pub open spec fn has_edge(self, a: int, b: int) -> bool {
        exists|k: int|
            0 <= k < self.edges@.len() && self.edges@[k].0 == a && self.edges@[k].1 == b
    }

    /// Well-formedness: pairwise-distinct identities (the dedup invariant),
    /// bounded identities, edges between existing nodes only, and no
    /// duplicate edge.
    pub open spec fn wf(self) -> bool {
        &&& forall|i: int, j: int|
            0 <= i < j < self.nodes@.len() ==> self.nodes@[i].id@ != self.nodes@[j].id@
        &&& forall|i: int| 0 <= i < self.nodes@.len() ==> (#[trigger] self.nodes@[i].id).wf()
        &&& forall|k: int|
            0 <= k < self.edges@.len() ==> (#[trigger] self.edges@[k]).0 < self.nodes@.len()
                && self.edges@[k].1 < self.nodes@.len()
        &&& forall|k: int, l: int|
            0 <= k < l < self.edges@.len() ==> self.edges@[k] != self.edges@[l]
    }

    /// An empty graph.
    pub fn new() -> (g: CrawlGraph)
        ensures
            g.wf(),
            g.nodes@.len() == 0,
            g.edges@.len() == 0,
    {
        CrawlGraph { nodes: Vec::new(), edges: Vec::new() }
    }

    /// Index of the node holding `id`'s content, if one exists.
    pub fn find(&self, id: &UrlId) -> (r: Option<usize>)
        ensures
            r matches Some(j) ==> j < self.nodes@.len() && self.nodes@[j as int].id@ == id@,
            r is None ==> !self.contains_id(id@),
            r is Some <==> self.contains_id(id@),
    {
        let n = self.nodes.len();
        let mut j: usize = 0;
        while j < n
            invariant
                n == self.nodes@.len(),
                j <= n,
                forall|k: int| 0 <= k < j ==> self.nodes@[k].id@ != id@,
            decreases n - j,
        {
            if self.nodes[j].id.url == id.url {
                return Some(j);
            }
            j += 1;
        }
        None
    }

    /// Membership by URL content.
    pub fn contains(&self, id: &UrlId) -> (r: bool)
        ensures
            r == self.contains_id(id@),
    {
        match self.find(id) {
            Some(_) => true,
            None => false,
        }
    }

    /// Idempotent node insertion: if a node with this identity exists, its
    /// index is returned and the graph is left untouched (in particular the
    /// node's state is not reset); otherwise a node in the given state is
    /// appended.
    pub fn add_node(&mut self, id: UrlId, state: CrawlState) -> (r: usize)
        requires
            old(self).wf(),
            id.wf(),
        ensures
            final(self).wf(),
            r < final(self).nodes@.len(),
            final(self).nodes@[r as int].id@ == id@,
            final(self).edges@ == old(self).edges@,
            old(self).contains_id(id@) ==> final(self).nodes@ == old(self).nodes@
                && r < old(self).nodes@.len(),
            !old(self).contains_id(id@) ==> final(self).nodes@ == old(self).nodes@.push(
                WebNode { id, state },
            ) && r == old(self).nodes@.len() && final(self).nodes@[r as int].state == state,
    {
        match self.find(&id) {
            Some(j) => j,
            None => {
                let r = self.nodes.len();
                self.nodes.push(WebNode { id, state });
                r
            },
        }
    }

    /// Idempotent edge insertion between existing nodes: a no-op when the
    /// edge is already present.
    pub fn add_edge(&mut self, a: usize, b: usize)
        requires
            old(self).wf(),
            a < old(self).nodes@.len(),
            b < old(self).nodes@.len(),
        ensures
            final(self).wf(),
            final(self).nodes@ == old(self).nodes@,
            final(self).has_edge(a as int, b as int),
            old(self).has_edge(a as int, b as int) ==> final(self).edges@ == old(self).edges@,
            !old(self).has_edge(a as int, b as int) ==> final(self).edges@ == old(
                self,
            ).edges@.push((a, b)),
    {
        let m = self.edges.len();
        let mut k: usize = 0;
        while k < m
            invariant
                self.nodes@ == old(self).nodes@,
                self.edges@ == old(self).edges@,
                old(self).wf(),
                a < self.nodes@.len(),
                b < self.nodes@.len(),
                m == self.edges@.len(),
                k <= m,
                forall|l: int|
                    0 <= l < k ==> !((#[trigger] self.edges@[l]).0 == a && self.edges@[l].1
                        == b),
            decreases m - k,
        {
            let e = self.edges[k];
            if e.0 == a && e.1 == b {
                return ;
            }
            k += 1;
        }
        self.edges.push((a, b));
        proof {
            assert(self.edges@[old(self).edges@.len() as int] == (a, b));
        }
    }

    /// Sets the state of node `i` in place: the sanctioned way to advance a
    /// node's state machine, visible to every holder of the index.
    pub fn set_state(&mut self, i: usize, state: CrawlState)
        requires
            old(self).wf(),
            i < old(self).nodes@.len(),
        ensures
            final(self).wf(),
            final(self).edges@ == old(self).edges@,
            final(self).nodes@.len() == old(self).nodes@.len(),
            final(self).nodes@[i as int].id == old(self).nodes@[i as int].id,
            final(self).nodes@[i as int].state == state,
            forall|j: int|
                0 <= j < final(self).nodes@.len() && j != i ==> final(self).nodes@[j] == old(
                    self,
                ).nodes@[j],
    {
        let id = self.nodes[i].id.clone();
        self.nodes.set(i, WebNode { id, state });
    }

    /// Number of nodes.
    pub fn node_count(&self) -> (r: usize)
        ensures
            r == self.nodes@.len(),
    {
        self.nodes.len()
    }

    /// Number of edges.
    pub fn edge_count(&self) -> (r: usize)
        ensures
            r == self.edges@.len(),
    {
        self.edges.len()
    }

    /// The URL content of node `i`.
    pub fn url_at(&self, i: usize) -> (r: String)
        requires
            i < self.nodes@.len(),
        ensures
            r@ == self.nodes@[i as int].id@,
    {
        self.nodes[i].id.as_string()
    }

    /// The crawl state of node `i`.
    pub fn state_at(&self, i: usize) -> (r: CrawlState)
        requires
            i < self.nodes@.len(),
        ensures
            r == self.nodes@[i as int].state,
    {
        self.nodes[i].state
    }

    /// The `k`-th edge, as a pair of node indices.
    pub fn edge_at(&self, k: usize) -> (r: (usize, usize))
        requires
            k < self.edges@.len(),
        ensures
            r == self.edges@[k as int],
    {
        self.edges[k]
    }

    /// Law (dedup invariant): in a well-formed graph a contained identity
    /// has exactly one node — some index holds it, and every index holding
    /// it is that one.
    pub proof fn lemma_node_unique(self, u: Seq<char>)
        requires
            self.wf(),
            self.contains_id(u),
        ensures
            exists|j: int|
                0 <= j < self.nodes@.len() && (#[trigger] self.nodes@[j]).id@ == u && (forall|
                    l: int,
                |
                    0 <= l < self.nodes@.len() && (#[trigger] self.nodes@[l]).id@ == u ==> l == j),
    {
        let j = choose|j: int| 0 <= j < self.nodes@.len() && self.nodes@[j].id@ == u;
        assert forall|l: int|
            0 <= l < self.nodes@.len() && (#[trigger] self.nodes@[l]).id@ == u implies l == j by {
            if l < j {
                assert(self.nodes@[l].id@ != self.nodes@[j].id@);
            } else if j < l {
                assert(self.nodes@[j].id@ != self.nodes@[l].id@);
            }
        }
        assert(0 <= j < self.nodes@.len() && self.nodes@[j].id@ == u);
    }

    /// Law (idempotent edges): in a well-formed graph a present edge occurs
    /// exactly once — some position holds it, and every position holding it
    /// is that one.
    pub proof fn lemma_edge_unique(self, a: int, b: int)
        requires
            self.wf(),
            self.has_edge(a, b),
        ensures
            exists|k: int|
                0 <= k < self.edges@.len() && (#[trigger] self.edges@[k]).0 == a
                    && self.edges@[k].1 == b && (forall|l: int|
                    0 <= l < self.edges@.len() && (#[trigger] self.edges@[l]).0 == a
                        && self.edges@[l].1 == b ==> l == k),
    {
        let k = choose|k: int|
            0 <= k < self.edges@.len() && self.edges@[k].0 == a && self.edges@[k].1 == b;
        assert forall|l: int|
            0 <= l < self.edges@.len() && (#[trigger] self.edges@[l]).0 == a && self.edges@[l].1
                == b implies l == k by {
            if l < k {
                assert(self.edges@[l] != self.edges@[k]);
            } else if k < l {
                assert(self.edges@[k] != self.edges@[l]);
            }
        }
        assert(0 <= k < self.edges@.len() && self.edges@[k].0 == a && self.edges@[k].1 == b);
    }
}

} // verus!
