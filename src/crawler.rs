//! The fetcher's decisions: URL validation, robots.txt evaluation, and the
//! result of a page fetch. The HTTP requests themselves are made by the
//! caller between the steps.
use vstd::prelude::*;
use vstd::string::*;
use crate::model::{CrawlRequest, CrawlResult};
use crate::weburl::{parse_url, url_parts_of};

verus! {

/// The robots.txt URL of the origin of `url`, `None` when it has none.
pub uninterp spec fn robots_url_of(url: Seq<char>) -> Option<Seq<char>>;

/// Whether a robots.txt body lets `agent` fetch `url`; `None` when the body
/// cannot be parsed.
pub uninterp spec fn robots_verdict(agent: Seq<char>, txt: Seq<u8>, url: Seq<char>) -> Option<bool>;

/// Relies on `texting_robots::get_robots_url`.
#[verifier::external_body]
fn robots_url(url: &str) -> (r: Result<String, String>)
    ensures
        match r {
            Ok(u) => robots_url_of(url@) == Some(u@),
            Err(_) => robots_url_of(url@) is None,
        },
{
    texting_robots::get_robots_url(url).map_err(|e| e.to_string())
}

/// Relies on `texting_robots::Robot::new` for `agent` over `txt`, then
/// `Robot::allowed` on `url`.
#[verifier::external_body]
fn robots_allowed(agent: &str, txt: &[u8], url: &str) -> (r: Result<bool, String>)
    ensures
        match r {
            Ok(b) => robots_verdict(agent@, txt@, url@) == Some(b),
            Err(_) => robots_verdict(agent@, txt@, url@) is None,
        },
{
    texting_robots::Robot::new(agent, txt).map(|robot| robot.allowed(url)).map_err(|e| e.to_string())
}

/// What the fetcher does first for a request.
#[derive(Debug)]
pub enum CrawlStart {
    /// The fetch is over before any request.
    Done(Result<CrawlResult, String>),
    /// Fetch robots.txt from this URL.
    FetchRobots(String),
}

pub open spec fn is_refusal(r: CrawlResult, req: CrawlRequest, error: bool) -> bool {
    &&& r.url@ == req.url@
    &&& !r.allowed_by_robots
    &&& r.content is None
    &&& (r.error is Some) == error
    &&& r.x_robots_tag is None
}

/// A URL that does not parse, or has no origin to ask robots.txt of, gives a
/// refused result with an error and no network call; otherwise robots.txt
/// of its origin is fetched next.
pub fn crawl_start(request: &CrawlRequest) -> (r: CrawlStart)
    ensures
        url_parts_of(request.url@) is None ==> (r matches CrawlStart::Done(Ok(res))
            && is_refusal(res, *request, true)),
        url_parts_of(request.url@) is Some ==> match robots_url_of(request.url@) {
            Some(u) => r matches CrawlStart::FetchRobots(v) && v@ == u,
            None => r matches CrawlStart::Done(Ok(res)) && is_refusal(res, *request, true),
        },
{
    if let Err(e) = parse_url(request.url.as_str()) {
        return CrawlStart::Done(
            Ok(
                CrawlResult {
                    url: request.url.clone(),
                    allowed_by_robots: false,
                    content: None,
                    error: Some(String::from_str("Invalid URL: ").concat(e.as_str())),
                    x_robots_tag: None,
                },
            ),
        );
    }
    match robots_url(request.url.as_str()) {
        Ok(u) => CrawlStart::FetchRobots(u),
        Err(e) => CrawlStart::Done(
            Ok(
                CrawlResult {
                    url: request.url.clone(),
                    allowed_by_robots: false,
                    content: None,
                    error: Some(String::from_str("Invalid URL: ").concat(e.as_str())),
                    x_robots_tag: None,
                },
            ),
        ),
    }
}

/// The robots.txt body to evaluate: the response body on a 2xx status;
/// empty (everything allowed) after a network failure or another status.
pub fn robots_body(status: Option<u16>, body: Option<String>) -> (r: String)
    ensures
        match (status, body) {
            (Some(s), Some(b)) => if 200 <= s < 300 {
                r@ == b@
            } else {
                r@.len() == 0
            },
            _ => r@.len() == 0,
        },
{
    match (status, body) {
        (Some(s), Some(b)) => if 200 <= s && s < 300 {
            b
        } else {
            String::new()
        },
        _ => String::new(),
    }
}

/// robots.txt evaluated for the request: `Some` ends the fetch (a denial, or
/// a body that does not parse); `None` means the page is fetched next.
pub fn crawl_after_robots(request: &CrawlRequest, robots_txt: &str) -> (r: Option<
    Result<CrawlResult, String>,
>)
    ensures
        match robots_verdict(request.user_agent@, robots_txt.spec_bytes(), request.url@) {
            Some(true) => r is None,
            Some(false) => r matches Some(Ok(res)) && is_refusal(res, *request, false),
            None => r matches Some(Err(_)),
        },
{
    match robots_allowed(request.user_agent.as_str(), robots_txt.as_bytes(), request.url.as_str()) {
        Ok(true) => None,
        Ok(false) => Some(
            Ok(
                CrawlResult {
                    url: request.url.clone(),
                    allowed_by_robots: false,
                    content: None,
                    error: None,
                    x_robots_tag: None,
                },
            ),
        ),
        Err(e) => Some(Err(e)),
    }
}

/// The outcome of the page request: `Err` when it could not be sent, else
/// its status, its `X-Robots-Tag` header and its body read as text. A 2xx
/// response with a non-empty body gives the content; anything else is a
/// failed fetch (allowed by robots, no content, an error).
pub fn crawl_finish(
    request: &CrawlRequest,
    response: Result<(u16, Option<String>, Result<String, String>), String>,
) -> (r: CrawlResult)
    ensures
        r.url@ == request.url@,
        r.allowed_by_robots,
        match response {
            Err(e) => r.content is None && r.x_robots_tag is None && (r.error matches Some(m)
                && m@ == "Failed to fetch content: "@ + e@),
            Ok((status, tag, body)) => {
                &&& r.x_robots_tag == tag
                &&& if 200 <= status < 300 && (body matches Ok(b) && b@.len() > 0) {
                    r.content == body.ok() && r.error is None
                } else {
                    r.content is None && r.error is Some
                }
            },
        },
{
    match response {
        Err(e) => CrawlResult {
            url: request.url.clone(),
            allowed_by_robots: true,
            content: None,
            error: Some(String::from_str("Failed to fetch content: ").concat(e.as_str())),
            x_robots_tag: None,
        },
        Ok((status, tag, body)) => {
            let (content, error) = if status < 200 || status >= 300 {
                (None, Some(String::from_str("Failed to fetch content: unexpected HTTP status")))
            } else {
                match body {
                    Ok(b) => if b.as_str().is_empty() {
                        (None, Some(String::from_str("Empty response body")))
                    } else {
                        (Some(b), None)
                    },
                    Err(e) => (None, Some(String::from_str("Failed to read content: ").concat(e.as_str()))),
                }
            };
            CrawlResult { url: request.url.clone(), allowed_by_robots: true, content, error, x_robots_tag: tag }
        },
    }
}

} // verus!
