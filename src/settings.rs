//! The settings cell and the reverse proxy's rules: where a request goes and
//! how a failure is reported.

use vstd::prelude::*;

verus! {

/// The upstream used while none is configured.
pub const DEFAULT_UPSTREAM: &'static str = "http://127.0.0.1:11434";

/// The settings cell: the configured upstream base URL, if any.
pub struct AppSettings {
    pub ollama_url: Option<String>,
}

/// The view of an optional string.
pub open spec fn opt_view(o: Option<String>) -> Option<Seq<char>> {
    match o {
        Some(s) => Some(s@),
        None => None,
    }
}

/// The base URL that requests go to.
pub open spec fn base_url_of(configured: Option<Seq<char>>) -> Seq<char> {
    match configured {
        Some(u) => u,
        None => DEFAULT_UPSTREAM@,
    }
}

/// The outbound URL: base, then the request's path, then `?` and its query.
pub open spec fn target_url_of(base: Seq<char>, path: Seq<char>, query: Seq<char>) -> Seq<char> {
    base + path + "?"@ + query
}

impl AppSettings {
    /// A cell holding `ollama_url`.
    pub fn new(ollama_url: Option<String>) -> (r: Self)
        ensures
            opt_view(r.ollama_url) == opt_view(ollama_url),
    {
        AppSettings { ollama_url }
    }

    /// The configured upstream, if any.
    pub fn get_ollama_url(&self) -> (r: Option<String>)
        ensures
            opt_view(r) == opt_view(self.ollama_url),
    {
        match &self.ollama_url {
            Some(u) => Some(u.clone()),
            None => None,
        }
    }

    /// Replaces the configured upstream; `None` clears it.
    pub fn set_ollama_url(&mut self, new_url: Option<String>)
        ensures
            opt_view(final(self).ollama_url) == opt_view(new_url),
    {
        self.ollama_url = new_url;
    }

    /// The base URL that requests go to: the configured one, else the
    /// loopback default.
    pub fn base_url(&self) -> (r: String)
        ensures
            r@ == base_url_of(opt_view(self.ollama_url)),
    {
        match &self.ollama_url {
            Some(u) => u.clone(),
            None => String::from_str(DEFAULT_UPSTREAM),
        }
    }

    /// Where a request for `path` with `query` is forwarded.
    pub fn proxy_target(&self, path: &str, query: &str) -> (r: String)
        ensures
            r@ == target_url_of(base_url_of(opt_view(self.ollama_url)), path@, query@),
    {
        target_url(self.base_url().as_str(), path, query)
    }
}

/// The outbound URL for `path` and `query` on `base`.
pub fn target_url(base: &str, path: &str, query: &str) -> (r: String)
    ensures
        r@ == target_url_of(base@, path@, query@),
{
    let mut r = String::from_str(base);
    r.append(path);
    r.append("?");
    r.append(query);
    r
}

/// The URL probed to tell whether an inference server runs at `url`.
pub fn models_check_url(url: &str) -> (r: String)
    ensures
        r@ == url@ + "/v1/models"@,
{
    String::from_str(url).concat("/v1/models")
}

/// Whether an HTTP status is a success (2xx).
pub open spec fn is_success(status: u16) -> bool {
    200 <= status <= 299
}

/// The servers among `urls` that answered with a success, in order;
/// `statuses[i]` is what `urls[i]` answered, `None` for no answer.
pub open spec fn reachable_of(urls: Seq<String>, statuses: Seq<Option<u16>>) -> Seq<Seq<char>>
    decreases urls.len(),
{
    if urls.len() == 0 || statuses.len() == 0 {
        Seq::empty()
    } else {
        let rest = reachable_of(urls.drop_last(), statuses.drop_last());
        match statuses.last() {
            Some(s) => if is_success(s) {
                rest.push(urls.last()@)
            } else {
                rest
            },
            None => rest,
        }
    }
}

/// The servers that answered their probe with a success, in the order
/// given.
pub fn reachable_servers(urls: &Vec<String>, statuses: &Vec<Option<u16>>) -> (r: Vec<String>)
    requires
        urls@.len() == statuses@.len(),
    ensures
        r@.map_values(|u: String| u@) == reachable_of(urls@, statuses@),
{
    let mut r: Vec<String> = Vec::new();
    let mut i: usize = 0;
    assert(urls@.subrange(0, 0) =~= Seq::<String>::empty());
    assert(r@.map_values(|u: String| u@) =~= Seq::<Seq<char>>::empty());
    while i < urls.len()
        invariant
            urls@.len() == statuses@.len(),
            i <= urls@.len(),
            r@.map_values(|u: String| u@) == reachable_of(
                urls@.subrange(0, i as int),
                statuses@.subrange(0, i as int),
            ),
        decreases urls@.len() - i,
    {
        let ghost before = r@.map_values(|u: String| u@);
        assert(urls@.subrange(0, i + 1).drop_last() =~= urls@.subrange(0, i as int));
        assert(statuses@.subrange(0, i + 1).drop_last() =~= statuses@.subrange(0, i as int));
        match statuses[i] {
            Some(s) => {
                if 200 <= s && s <= 299 {
                    r.push(urls[i].clone());
                    assert(r@.map_values(|u: String| u@) =~= before.push(urls@[i as int]@));
                }
            },
            None => {},
        }
        i = i + 1;
    }
    assert(urls@.subrange(0, i as int) =~= urls@);
    assert(statuses@.subrange(0, i as int) =~= statuses@);
    r
}

/// Why a proxied request failed.
#[derive(Clone, Copy, PartialEq, Eq, Structural, Debug)]
pub enum ProxyError {
    /// The inbound request body could not be read.
    BodyUnreadable,
    /// The upstream could not be reached or gave no response.
    UpstreamUnreachable,
}

impl ProxyError {
    /// The HTTP status reported for the failure: a local server error, or
    /// a bad gateway when the upstream is at fault.
    pub fn status_code(&self) -> (r: u16)
        ensures
            *self == ProxyError::BodyUnreadable ==> r == 500,
            *self == ProxyError::UpstreamUnreachable ==> r == 502,
    {
        match self {
            ProxyError::BodyUnreadable => 500,
            ProxyError::UpstreamUnreachable => 502,
        }
    }
}

} // verus!
