//! The parts of a URL that the crawl logic reads: its host and its path.
use vstd::prelude::*;

verus! {

/// What parsing yields for a text: `None` when it is not a URL, else the
/// host (absent for host-less URLs) and the path.
pub uninterp spec fn url_parts_of(s: Seq<char>) -> Option<(Option<Seq<char>>, Seq<char>)>;

/// The absolute URL that a reference `href` denotes against `base`, or `None`
/// when `base` is not a URL or the reference cannot be resolved.
pub uninterp spec fn joined_url(base: Seq<char>, href: Seq<char>) -> Option<Seq<char>>;

/// Host and path of a parsed URL.
pub struct UrlParts {
    pub host: Option<String>,
    pub path: String,
}

pub open spec fn opt_view(o: Option<String>) -> Option<Seq<char>> {
    match o {
        Some(s) => Some(s@),
        None => None,
    }
}

impl UrlParts {
    pub open spec fn parts(&self) -> (Option<Seq<char>>, Seq<char>) {
        (opt_view(self.host), self.path@)
    }
}

/// Relies on `url::Url::parse`, reading `Url::host_str` and `Url::path` off
/// the parsed value; the error is `url::ParseError` as text.
#[verifier::external_body]
pub(crate) fn parse_url(s: &str) -> (r: Result<UrlParts, String>)
    ensures
        match r {
            Ok(p) => url_parts_of(s@) == Some(p.parts()),
            Err(_) => url_parts_of(s@) is None,
        },
{
    match url::Url::parse(s) {
        Ok(u) => Ok(UrlParts { host: u.host_str().map(|h| h.to_string()), path: u.path().to_string() }),
        Err(e) => Err(e.to_string()),
    }
}

/// Relies on `url::Url::parse` of the base and `Url::join` of the reference,
/// the result serialised by `Url`'s `Display`.
#[verifier::external_body]
pub(crate) fn join_url(base: &str, href: &str) -> (r: Option<String>)
    ensures
        opt_view(r) == joined_url(base@, href@),
{
    url::Url::parse(base).and_then(|b| b.join(href)).ok().map(|u| u.to_string())
}

/// The host a URL names, if it parses and has one.
pub open spec fn host_of(s: Seq<char>) -> Option<Seq<char>> {
    match url_parts_of(s) {
        Some(p) => p.0,
        None => None,
    }
}

/// Resolves `href` against `base`; when that fails, `href` is kept as it is.
pub fn resolve_url(base_url: &str, href: &str) -> (r: String)
    ensures
        r@ == match joined_url(base_url@, href@) {
            Some(j) => j,
            None => href@,
        },
{
    match join_url(base_url, href) {
        Some(j) => j,
        None => String::from_str(href),
    }
}

/// The host of `url`, or `fallback` when `url` does not parse or has no host.
pub fn host_or(url: &str, fallback: &str) -> (r: String)
    ensures
        r@ == match host_of(url@) {
            Some(h) => h,
            None => fallback@,
        },
{
    match parse_url(url) {
        Ok(p) => match p.host {
            Some(h) => h,
            None => String::from_str(fallback),
        },
        Err(_) => String::from_str(fallback),
    }
}

} // verus!
