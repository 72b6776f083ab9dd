//! A breadth-first web-crawl engine: a bounded URL identity used as the
//! deduplication key, a domain allow/deny filter, a directed crawl graph with
//! idempotent node and edge insertion, and a frontier scheduler that drives
//! the per-node crawl state machine. Fetching pages is left to the caller:
//! the scheduler hands out fetch requests and consumes their outcomes.

pub mod domain;
pub mod engine;
pub mod graph;
pub mod identity;
pub mod links;

pub use graph::CrawlGraph;
pub use graph::CrawlState;
pub use graph::WebNode;
pub use identity::CrawlError;
pub use identity::URL_CHAR_LIMIT;
pub use identity::UrlId;
