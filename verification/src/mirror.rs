//! A candidate mirror: its base URL and the host derived from it.

use vstd::prelude::*;

verus! {

/// The host component that URL parsing derives from a URL text, or `None`
/// where the text is not a valid URL or its URL has no host. The value is a
/// function of the URL text alone.
pub uninterp spec fn host_of(url_text: Seq<char>) -> Option<Seq<char>>;

/// Relies on `url::Url::parse` and `url::Url::host_str`: parsing is a pure
/// function of the URL text, and `host_str` returns the host component of
/// the parsed URL, or `None` where it has none.
#[verifier::external_body]
fn parse_host(url_text: &str) -> (r: Option<String>)
    ensures
        r matches Some(h) ==> host_of(url_text@) == Some(h@),
        r is None ==> host_of(url_text@) is None,
{
    match url::Url::parse(url_text) {
        Ok(u) => u.host_str().map(|h| h.to_string()),
        Err(_) => None,
    }
}

/// One mirror of the package repository: an HTTP(S) base URL, plus the host
/// it names, kept for reporting. A malformed base URL or one without a host
/// leaves the host `None`; it does not abort anything, since such a mirror
/// simply fails its attempt and the run falls through to the next one.
pub struct Mirror {
    pub base_url: String,
    pub host: Option<String>,
}

impl Mirror {
    /// The stored host is exactly the one the base URL names.
    pub open spec fn wf(&self) -> bool {
        match self.host {
            Some(h) => host_of(self.base_url@) == Some(h@),
            None => host_of(self.base_url@) is None,
        }
    }

    /// Make a mirror from its base URL, deriving the host.
    pub fn from_base_url(base_url: String) -> (m: Mirror)
        ensures
            m.base_url == base_url,
            m.wf(),
    {
        let host = parse_host(base_url.as_str());
        Mirror { base_url, host }
    }
}

} // verus!
