//! Domain filtering: classifies a URL string by its registrable domain
//! against a named set of domains. URL parsing is delegated to the `url`
//! crate; a string that fails to parse, or parses to a URL without a
//! domain-name host, belongs to no set — never an error for the caller.

use vstd::prelude::*;

verus! {

/// The registrable domain component of a URL string, when the string
/// parses as an absolute URL whose host is a domain name. The result is a
/// function of the string alone.
pub uninterp spec fn domain_spec(s: Seq<char>) -> Option<Seq<char>>;

/// Relies on url::Url::parse and url::Url::domain: parses the string as an
/// absolute URL and hands back its host when that host is a domain name
/// (not an IP address); `None` on a parse failure or a domainless URL.
#[verifier::external_body]
fn parse_domain(url_str: &str) -> (r: Option<String>)
    ensures
        r matches Some(d) ==> domain_spec(url_str@) == Some(d@),
        r is None ==> domain_spec(url_str@) is None,
{
    match url::Url::parse(url_str) {
        Ok(parsed) => parsed.domain().map(|d| d.to_string()),
        Err(_) => None,
    }
}

/// Whether `d` occurs in `set`.
pub open spec fn seq_has(set: Seq<Seq<char>>, d: Seq<char>) -> bool {
    exists|k: int| 0 <= k < set.len() && set[k] == d
}

/// The contents of a sequence of strings, as character sequences.
pub open spec fn views_of(set: Seq<String>) -> Seq<Seq<char>> {
    set.map_values(|s: String| s@)
}

/// Whether the URL's domain is a member of the set; false when the URL has
/// no domain at all.
pub open spec fn url_in_set(u: Seq<char>, set: Seq<Seq<char>>) -> bool {
    match domain_spec(u) {
        Some(d) => seq_has(set, d),
        None => false,
    }
}

/// True iff the URL parses, has a domain, and that domain is one of
/// `domains`. Total over all inputs: a malformed or domainless URL is in
/// no set.
pub fn matches_any(url_str: &str, domains: &Vec<String>) -> (r: bool)
    ensures
        r == url_in_set(url_str@, views_of(domains@)),
{
    match parse_domain(url_str) {
        None => false,
        Some(d) => {
            let n = domains.len();
            let mut k: usize = 0;
            while k < n
                invariant
                    n == domains@.len(),
                    k <= n,
                    domain_spec(url_str@) == Some(d@),
                    forall|l: int| 0 <= l < k ==> views_of(domains@)[l] != d@,
                decreases n - k,
            {
                if domains[k] == d {
                    proof {
                        assert(views_of(domains@)[k as int] == d@);
                    }
                    return true;
                }
                k += 1;
            }
            false
        },
    }
}

} // verus!
