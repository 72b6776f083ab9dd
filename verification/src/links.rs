//! Link extraction from fetched page content, and a predicate that tells
//! hyperlinks to pages apart from links to non-HTML resources.

use vstd::prelude::*;
use vstd::string::StrSliceExecFns;

use select::document::Document;
use select::predicate::Name;
use select::predicate::Predicate;

use crate::domain::views_of;

verus! {

/// The href targets of the `a` and `link` elements of an HTML page, in
/// document order. The result is a function of the page text alone.
pub uninterp spec fn links_of(content: Seq<char>) -> Seq<Seq<char>>;

/// Relies on select's Document (an html5ever parse of the text) and its
/// `find` over the `a` and `link` element names: hands back every `href`
/// attribute value found, in document order.
#[verifier::external_body]
pub(crate) fn extract_links(content: &str) -> (r: Vec<String>)
    ensures
        views_of(r@) == links_of(content@),
{
    Document::from(content)
        .find(Name("a").or(Name("link")))
        .filter_map(|node| node.attr("href"))
        .map(|href| href.to_string())
        .collect()
}

/// Suffix test over characters.
pub open spec fn ends_with_spec(s: Seq<char>, suffix: Seq<char>) -> bool {
    s.len() >= suffix.len() && s.subrange(s.len() - suffix.len(), s.len() as int) == suffix
}

/// True iff `s` ends with `suffix`.
fn ends_with(s: &str, suffix: &str) -> (r: bool)
    ensures
        r == ends_with_spec(s@, suffix@),
{
    let n = s.unicode_len();
    let m = suffix.unicode_len();
    if m > n {
        return false;
    }
    let mut i: usize = 0;
    while i < m
        invariant
            n == s@.len(),
            m == suffix@.len(),
            m <= n,
            i <= m,
            forall|j: int| 0 <= j < i ==> s@[n - m + j] == suffix@[j],
        decreases m - i,
    {
        if s.get_char(n - m + i) != suffix.get_char(i) {
            proof {
                if ends_with_spec(s@, suffix@) {
                    assert(s@.subrange(s@.len() - suffix@.len(), s@.len() as int)[i as int]
                        == s@[n - m + i]);
                }
            }
            return false;
        }
        i += 1;
    }
    proof {
        assert(s@.subrange(s@.len() - suffix@.len(), s@.len() as int) =~= suffix@);
    }
    true
}

/// A link is taken for a page link unless it ends in one of these resource
/// suffixes: stylesheets, scripts, images, icons or documents.
pub open spec fn link_is_html_spec(link: Seq<char>) -> bool {
    &&& !ends_with_spec(link, ".css"@)
    &&& !ends_with_spec(link, ".js"@)
    &&& !ends_with_spec(link, ".png"@)
    &&& !ends_with_spec(link, ".jpg"@)
    &&& !ends_with_spec(link, ".jpeg"@)
    &&& !ends_with_spec(link, ".gif"@)
    &&& !ends_with_spec(link, ".svg"@)
    &&& !ends_with_spec(link, ".ico"@)
    &&& !ends_with_spec(link, ".pdf"@)
}

/// True iff `link` looks like a link to a web page rather than to a
/// script, stylesheet, image or other resource.
pub fn link_is_html(link: &String) -> (r: bool)
    ensures
        r == link_is_html_spec(link@),
{
    let s = link.as_str();
    !(ends_with(s, ".css") || ends_with(s, ".js") || ends_with(s, ".png") || ends_with(s, ".jpg")
        || ends_with(s, ".jpeg") || ends_with(s, ".gif") || ends_with(s, ".svg") || ends_with(
        s,
        ".ico",
    ) || ends_with(s, ".pdf"))
}

} // verus!
