//! URL identity: a bounded-length string that serves as the sole
//! deduplication key of the crawl graph. Equality is structural over the
//! URL content alone, independent of any crawl state.

use vstd::prelude::*;
use vstd::std_specs::cmp::PartialEqSpec;
use vstd::string::StrSliceExecFns;

verus! {

/// Maximum number of characters a URL identity may hold.
pub const URL_CHAR_LIMIT: usize = 6000;

/// Errors surfaced by the crawl library.
#[derive(Clone, Copy, PartialEq, Eq, Structural, Debug)]
pub enum CrawlError {
    /// The URL string holds more than `URL_CHAR_LIMIT` characters.
    TooLong,
}

/// A bounded URL identity. Construction fails with `CrawlError::TooLong`
/// rather than truncating; the stored content is reconstructed losslessly
/// by `as_string`.
#[derive(Hash)]
pub struct UrlId {
    pub url: String,
}

impl Clone for UrlId {
    fn clone(&self) -> (r: UrlId)
        ensures
            r == *self,
    {
        UrlId { url: self.url.clone() }
    }
}

impl View for UrlId {
    type V = Seq<char>;

    open spec fn view(&self) -> Seq<char> {
        self.url@
    }
}

impl UrlId {
    /// The capacity bound every identity respects.
    pub open spec fn wf(self) -> bool {
        self@.len() <= URL_CHAR_LIMIT
    }

    /// Builds an identity from a raw URL string; fails exactly when the
    /// string has more than `URL_CHAR_LIMIT` characters.
    pub fn create(url_str: &str) -> (r: Result<UrlId, CrawlError>)
        ensures
            r is Ok <==> url_str@.len() <= URL_CHAR_LIMIT,
            r matches Ok(id) ==> id@ == url_str@ && id.wf(),
            r matches Err(e) ==> e == CrawlError::TooLong,
    {
        let n = url_str.unicode_len();
        if n > URL_CHAR_LIMIT {
            Err(CrawlError::TooLong)
        } else {
            Ok(UrlId { url: url_str.to_owned() })
        }
    }

    /// Lossless reconstruction of the URL content.
    pub fn as_string(&self) -> (r: String)
        ensures
            r@ == self@,
    {
        self.url.clone()
    }
}

impl PartialEq for UrlId {
    fn eq(&self, other: &UrlId) -> bool {
        self.url == other.url
    }
}

impl vstd::std_specs::cmp::PartialEqSpecImpl for UrlId {
    open spec fn obeys_eq_spec() -> bool {
        true
    }

    open spec fn eq_spec(&self, other: &UrlId) -> bool {
        self@ == other@
    }
}

/// Law: identity equality is determined by URL content alone. Two
/// identities whose content came from the same string are equal, and a
/// string reconstructed from an identity is the string it was created from.
pub proof fn lemma_identity_equality(s: Seq<char>, a: UrlId, b: UrlId, reconstructed: Seq<char>)
    requires
        a@ == s,
        b@ == s,
        reconstructed == a@,
    ensures
        a@ == b@,
        a.eq_spec(&b),
        reconstructed == s,
{
}

} // verus!
