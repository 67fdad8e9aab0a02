//! The requests that a test sends, described as values for a transport to carry.
use vstd::prelude::*;
use crate::error::SpeedtestError;
use crate::utils::{add_query_param, cache_bust, decimal, query_delimiter};

verus! {

/// The method of a request.
#[derive(Debug, Clone, Copy, PartialEq, Eq)]
pub enum Method {
    Get,
    Post,
}

/// One HTTP request: what the transport sends, and how long it may take.
#[derive(Debug, Clone)]
pub struct HttpRequest {
    pub method: Method,
    pub url: String,
    pub headers: Vec<(String, String)>,
    pub body: Vec<u8>,
    pub timeout_secs: u64,
}

/// Builds the requests of a test: it completes scheme-relative URLs and gives
/// each request its timeout.
#[derive(Debug, Clone, Copy)]
pub struct HttpClient {
    pub timeout: u64,
    pub secure: bool,
}

/// Whether `url` is scheme-relative, that is starts with `://`.
pub open spec fn scheme_relative(url: Seq<char>) -> bool {
    url.len() >= 3 && url[0] == ':' && url[1] == '/' && url[2] == '/'
}

/// The URL that a request to `url` goes to at `timestamp_ms`: a scheme-relative
/// URL gets `https` or `http` and a cache-busting parameter; any other stays as it is.
pub open spec fn final_url(secure: bool, url: Seq<char>, timestamp_ms: nat) -> Seq<char> {
    if scheme_relative(url) {
        let host = (if secure {
            "https"@
        } else {
            "http"@
        }) + url;
        host + query_delimiter(host) + "x="@ + decimal(timestamp_ms)
    } else {
        url
    }
}

fn starts_with_scheme_separator(url: &str) -> (r: bool)
    ensures
        r == scheme_relative(url@),
{
    url.unicode_len() >= 3 && url.get_char(0) == ':' && url.get_char(1) == '/' && url.get_char(2)
        == '/'
}

impl HttpClient {
    /// A client whose requests time out after `timeout` seconds and that
    /// completes scheme-relative URLs with `https` where `secure` holds.
    /// Binding to a source address is not offered, so `_source_address` is not used.
    pub fn new(timeout: u64, secure: bool, _source_address: Option<String>) -> (r: Result<
        HttpClient,
        SpeedtestError,
    >)
        ensures
            r matches Ok(c) && c.timeout == timeout && c.secure == secure,
    {
        Ok(HttpClient { timeout, secure })
    }

    /// The URL that a request to `url` issued at `timestamp_ms` goes to; see `final_url`.
    pub fn build_url(&self, url: &str, timestamp_ms: u64) -> (r: String)
        ensures
            r@ == final_url(self.secure, url@, timestamp_ms as nat),
    {
        if starts_with_scheme_separator(url) {
            let mut host = if self.secure {
                String::from_str("https")
            } else {
                String::from_str("http")
            };
            host.append(url);
            let param = cache_bust(timestamp_ms);
            let r = add_query_param(host.as_str(), param.as_str());
            assert(r@ =~= final_url(self.secure, url@, timestamp_ms as nat));
            r
        } else {
            String::from_str(url)
        }
    }

    /// A GET request for `url`, issued at `timestamp_ms`.
    pub fn get(&self, url: &str, timestamp_ms: u64) -> (r: HttpRequest)
        ensures
            r.method == Method::Get,
            r.url@ == final_url(self.secure, url@, timestamp_ms as nat),
            r.headers@.len() == 0,
            r.body@.len() == 0,
            r.timeout_secs == self.timeout,
    {
        HttpRequest {
            method: Method::Get,
            url: self.build_url(url, timestamp_ms),
            headers: Vec::new(),
            body: Vec::new(),
            timeout_secs: self.timeout,
        }
    }

    /// A form POST of `body` to `url`, issued at `timestamp_ms`, that asks
    /// caches not to answer it.
    pub fn post(&self, url: &str, body: Vec<u8>, timestamp_ms: u64) -> (r: HttpRequest)
        ensures
            r.method == Method::Post,
            r.url@ == final_url(self.secure, url@, timestamp_ms as nat),
            r.headers@.len() == 2,
            r.headers@[0].0@ == "Content-Type"@,
            r.headers@[0].1@ == "application/x-www-form-urlencoded"@,
            r.headers@[1].0@ == "Cache-Control"@,
            r.headers@[1].1@ == "no-cache"@,
            r.body@ == body@,
            r.timeout_secs == self.timeout,
    {
        let mut headers: Vec<(String, String)> = Vec::new();
        headers.push(
            (String::from_str("Content-Type"), String::from_str("application/x-www-form-urlencoded")),
        );
        headers.push((String::from_str("Cache-Control"), String::from_str("no-cache")));
        HttpRequest {
            method: Method::Post,
            url: self.build_url(url, timestamp_ms),
            headers,
            body,
            timeout_secs: self.timeout,
        }
    }
}

} // verus!
