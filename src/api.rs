//! The HTTP handlers' decisions and bodies: admission of enqueued URLs,
//! allow-list edits, search paging, and the tenant a request is scoped to.
use vstd::prelude::*;
use vstd::string::*;
use crate::model::CrawlQueueEntry;
use crate::modes::DeploymentMode;
use crate::weburl::{parse_url, url_parts_of};

verus! {

/// An error answer: HTTP status and message.
#[derive(Debug)]
pub struct ApiError {
    pub status: u16,
    pub message: String,
}

/// Body of `POST /queue/add`.
#[derive(Debug)]
pub struct AddToQueueRequest {
    pub url: String,
    pub priority: i32,
}

/// Priority of an enqueued URL when the request names none.
pub fn default_priority() -> (r: i32)
    ensures
        r == 1,
{
    1
}

#[derive(Debug)]
pub struct AddToQueueResponse {
    pub success: bool,
    pub message: String,
    pub url: String,
    pub domain: String,
}

/// The host under which an enqueued URL is admitted. A URL that does not
/// parse, or has no host, is refused with 400 before any database call.
pub fn enqueue_target(url: &str) -> (r: Result<String, ApiError>)
    ensures
        match url_parts_of(url@) {
            Some((Some(h), _)) => r matches Ok(d) && d@ == h,
            _ => r matches Err(e) && e.status == 400,
        },
{
    match parse_url(url) {
        Err(e) => Err(
            ApiError { status: 400, message: String::from_str("Invalid URL: ").concat(e.as_str()) },
        ),
        Ok(parts) => match parts.host {
            Some(h) => Ok(h),
            None => Err(ApiError { status: 400, message: String::from_str("URL has no host") }),
        },
    }
}

/// The queue row for an admitted URL: refused with 403, naming the domain,
/// unless the domain is on the allow-list.
pub fn enqueue_entry(url: &str, domain: &str, priority: i32, domain_allowed: bool, now_ms: i64) -> (r:
    Result<CrawlQueueEntry, ApiError>)
    ensures
        !domain_allowed ==> (r matches Err(e) && e.status == 403 && e.message@ == "Domain '"@
            + domain@ + "' is not in the allowed domains list"@),
        domain_allowed ==> (r matches Ok(e) && e.priority == priority && e.scheduled_at == now_ms
            && e.created_at == now_ms && e.url@ == url@ && e.domain@ == domain@
            && e.last_attempt_at is None && e.attempt_count == 0),
{
    if !domain_allowed {
        return Err(
            ApiError {
                status: 403,
                message: String::from_str("Domain '").concat(domain).concat(
                    "' is not in the allowed domains list",
                ),
            },
        );
    }
    Ok(
        CrawlQueueEntry {
            priority,
            scheduled_at: now_ms,
            url: String::from_str(url),
            domain: String::from_str(domain),
            last_attempt_at: None,
            attempt_count: 0,
            created_at: now_ms,
        },
    )
}

pub fn enqueue_response(url: &str, domain: &str) -> (r: AddToQueueResponse)
    ensures
        r.success,
        r.url@ == url@,
        r.domain@ == domain@,
{
    AddToQueueResponse {
        success: true,
        message: String::from_str("URL added to crawl queue successfully"),
        url: String::from_str(url),
        domain: String::from_str(domain),
    }
}

/// Body of `POST /admin/allowed-domains`.
#[derive(Debug)]
pub struct AddDomainRequest {
    pub domain: String,
    pub notes: Option<String>,
}

#[derive(Debug)]
pub struct AddDomainResponse {
    pub success: bool,
    pub message: String,
    pub domain: String,
}

/// One allow-listed domain as listed.
#[derive(Debug)]
pub struct DomainInfo {
    pub domain: String,
    pub added_at: Option<String>,
    pub added_by: Option<String>,
    pub notes: Option<String>,
}

#[derive(Debug)]
pub struct ListDomainsResponse {
    pub domains: Vec<DomainInfo>,
    pub count: usize,
}

#[derive(Debug)]
pub struct DeleteDomainResponse {
    pub success: bool,
    pub message: String,
    pub domain: String,
}

/// An empty domain is refused with 400.
pub fn check_new_domain(domain: &str) -> (r: Result<(), ApiError>)
    ensures
        r is Ok <==> domain@.len() > 0,
        r matches Err(e) ==> e.status == 400,
{
    if domain.is_empty() {
        Err(ApiError { status: 400, message: String::from_str("Domain cannot be empty") })
    } else {
        Ok(())
    }
}

pub fn add_domain_response(domain: &str) -> (r: AddDomainResponse)
    ensures
        r.success,
        r.domain@ == domain@,
{
    AddDomainResponse {
        success: true,
        message: String::from_str("Domain added to allowed list successfully"),
        domain: String::from_str(domain),
    }
}

pub fn list_domains_response(domains: Vec<DomainInfo>) -> (r: ListDomainsResponse)
    ensures
        r.domains@ == domains@,
        r.count == domains@.len(),
{
    let count = domains.len();
    ListDomainsResponse { domains, count }
}

/// Removing a domain answers the same whether or not it was listed.
pub fn delete_domain_response(domain: &str) -> (r: DeleteDomainResponse)
    ensures
        r.success,
        r.domain@ == domain@,
{
    DeleteDomainResponse {
        success: true,
        message: String::from_str("Domain removed from allowed list successfully"),
        domain: String::from_str(domain),
    }
}

/// Body of `PUT /admin/settings/crawling-enabled`.
#[derive(Debug)]
pub struct SetCrawlingEnabledRequest {
    pub enabled: bool,
}

#[derive(Debug)]
pub struct CrawlingEnabledResponse {
    pub enabled: bool,
}

/// Body of `GET /version`.
#[derive(Debug)]
pub struct VersionResponse {
    pub agent: String,
    pub version: String,
    pub deployment_mode: String,
}

pub fn version_response(version: &str, mode: DeploymentMode) -> (r: VersionResponse)
    ensures
        r.agent@ == "lala-agent"@,
        r.version@ == version@,
        r.deployment_mode@ == mode.name(),
{
    VersionResponse {
        agent: String::from_str("lala-agent"),
        version: String::from_str(version),
        deployment_mode: mode.to_string(),
    }
}

/// Body of `POST /search`.
#[derive(Debug)]
pub struct SearchRequest {
    pub query: String,
    pub limit: Option<u32>,
    pub offset: Option<u32>,
}

/// Most results one search returns.
pub const MAX_SEARCH_LIMIT: u32 = 1000;

/// Results returned when the request names no limit.
pub const DEFAULT_SEARCH_LIMIT: u32 = 20;

/// The (limit, offset) of a search: limit 20 by default and at most 1000,
/// offset 0 by default.
pub fn search_window(request: &SearchRequest) -> (r: (u32, u32))
    ensures
        r.0 == match request.limit {
            Some(l) => if l < MAX_SEARCH_LIMIT {
                l
            } else {
                MAX_SEARCH_LIMIT
            },
            None => DEFAULT_SEARCH_LIMIT,
        },
        r.1 == match request.offset {
            Some(o) => o,
            None => 0,
        },
{
    let limit = match request.limit {
        Some(l) => if l < MAX_SEARCH_LIMIT {
            l
        } else {
            MAX_SEARCH_LIMIT
        },
        None => DEFAULT_SEARCH_LIMIT,
    };
    let offset = match request.offset {
        Some(o) => o,
        None => 0,
    };
    (limit, offset)
}

/// Cookie that carries the session token.
pub const SESSION_COOKIE_NAME: &'static str = "lala_session";

/// First step of scoping a request to a tenant: `Ok(None)` uses the base
/// keyspace (single-tenant); `Ok(Some(token))` asks for the session to be
/// validated. Without a session service multi-tenant requests get 503,
/// without a session cookie 401.
pub fn tenant_session(mode: DeploymentMode, auth_configured: bool, session_token: Option<String>) -> (r:
    Result<Option<String>, ApiError>)
    ensures
        mode == DeploymentMode::SingleTenant ==> r matches Ok(None),
        mode == DeploymentMode::MultiTenant ==> {
            if !auth_configured {
                r matches Err(e) && e.status == 503
            } else {
                match session_token {
                    Some(t) => r matches Ok(Some(u)) && u@ == t@,
                    None => r matches Err(e) && e.status == 401,
                }
            }
        },
{
    match mode {
        DeploymentMode::SingleTenant => Ok(None),
        DeploymentMode::MultiTenant => {
            if !auth_configured {
                return Err(
                    ApiError {
                        status: 503,
                        message: String::from_str(
                            "Auth service not configured for multi-tenant mode",
                        ),
                    },
                );
            }
            match session_token {
                Some(t) => Ok(Some(t)),
                None => Err(
                    ApiError {
                        status: 401,
                        message: String::from_str(
                            "Authentication required for multi-tenant access",
                        ),
                    },
                ),
            }
        },
    }
}

/// Second step: the tenant keyspace of a validated session. An invalid or
/// expired session gets 401, a failed validation 500.
pub fn tenant_from_validation(validated: Result<Option<String>, String>) -> (r: Result<
    String,
    ApiError,
>)
    ensures
        match validated {
            Ok(Some(t)) => r matches Ok(k) && k@ == t@,
            Ok(None) => r matches Err(e) && e.status == 401,
            Err(_) => r matches Err(e) && e.status == 500,
        },
{
    match validated {
        Ok(Some(t)) => Ok(t),
        Ok(None) => Err(ApiError { status: 401, message: String::from_str("Invalid or expired session") }),
        Err(e) => Err(
            ApiError {
                status: 500,
                message: String::from_str("Session validation error: ").concat(e.as_str()),
            },
        ),
    }
}

} // verus!
