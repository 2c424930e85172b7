//! Rows of a tenant keyspace and the records the pipeline hands around.
//! Timestamps are milliseconds since the epoch; a storage id is the 128-bit
//! value of a time-ordered UUID, so numeric order is creation order.
use vstd::prelude::*;
use crate::storage::CompressionType;

verus! {

/// One row of the crawl queue, keyed by (priority, scheduled_at, url).
#[derive(Debug)]
pub struct CrawlQueueEntry {
    pub priority: i32,
    pub scheduled_at: i64,
    pub url: String,
    pub domain: String,
    pub last_attempt_at: Option<i64>,
    pub attempt_count: i32,
    pub created_at: i64,
}

impl CrawlQueueEntry {
    /// The primary key of the row.
    pub open spec fn key(&self) -> (i32, i64, Seq<char>) {
        (self.priority, self.scheduled_at, self.url@)
    }
}

/// Page metadata, keyed by (domain, url_path).
#[derive(Debug)]
pub struct CrawledPage {
    pub domain: String,
    pub url_path: String,
    pub url: String,
    pub storage_id: Option<u128>,
    pub storage_compression: CompressionType,
    pub last_crawled_at: i64,
    pub next_crawl_at: i64,
    pub crawl_frequency_hours: i32,
    pub http_status: i32,
    pub content_hash: String,
    pub content_length: i64,
    pub robots_allowed: bool,
    pub error_message: Option<String>,
    pub crawl_count: i32,
    pub created_at: i64,
    pub updated_at: i64,
}

impl CrawledPage {
    pub open spec fn key(&self) -> (Seq<char>, Seq<char>) {
        (self.domain@, self.url_path@)
    }
}

/// Classification of a failed stage.
#[derive(Debug, Clone, Copy, PartialEq, Eq, Structural)]
pub enum CrawlErrorType {
    /// Network error, non-2xx, or no body.
    FetchError,
    /// Object store not configured, or the upload failed.
    StorageError,
    /// The page record or its counters could not be written.
    DatabaseError,
    /// The search adapter refused the document.
    SearchIndexError,
    /// robots.txt denies the user agent.
    RobotsDisallowed,
    /// The URL does not parse or has no host.
    InvalidUrl,
    /// Not classified.
    Unknown,
}

impl CrawlErrorType {
    pub open spec fn name(self) -> Seq<char> {
        match self {
            CrawlErrorType::FetchError => "fetch"@,
            CrawlErrorType::StorageError => "storage"@,
            CrawlErrorType::DatabaseError => "database"@,
            CrawlErrorType::SearchIndexError => "search_index"@,
            CrawlErrorType::RobotsDisallowed => "robots_disallowed"@,
            CrawlErrorType::InvalidUrl => "invalid_url"@,
            CrawlErrorType::Unknown => "unknown"@,
        }
    }

    /// Failures that no retry can mend.
    pub open spec fn is_terminal(self) -> bool {
        self == CrawlErrorType::RobotsDisallowed || self == CrawlErrorType::InvalidUrl
    }

    /// The value of the `error_type` column.
    pub fn to_string(&self) -> (r: String)
        ensures
            r@ == self.name(),
    {
        match self {
            CrawlErrorType::FetchError => String::from_str("fetch"),
            CrawlErrorType::StorageError => String::from_str("storage"),
            CrawlErrorType::DatabaseError => String::from_str("database"),
            CrawlErrorType::SearchIndexError => String::from_str("search_index"),
            CrawlErrorType::RobotsDisallowed => String::from_str("robots_disallowed"),
            CrawlErrorType::InvalidUrl => String::from_str("invalid_url"),
            CrawlErrorType::Unknown => String::from_str("unknown"),
        }
    }
}

/// One row of the error log, keyed by (domain, occurred_at).
#[derive(Debug)]
pub struct CrawlError {
    pub domain: String,
    pub occurred_at: i64,
    pub url: String,
    pub error_type: CrawlErrorType,
    pub error_message: String,
    pub attempt_count: i32,
    pub stack_trace: Option<String>,
}

/// What to fetch, and as whom.
#[derive(Debug)]
pub struct CrawlRequest {
    pub url: String,
    pub user_agent: String,
}

/// What a fetch found.
#[derive(Debug)]
pub struct CrawlResult {
    pub url: String,
    /// Whether robots.txt lets the user agent fetch the URL.
    pub allowed_by_robots: bool,
    /// The body, when the fetch succeeded.
    pub content: Option<String>,
    /// Why the fetch failed, when it did.
    pub error: Option<String>,
    /// The `X-Robots-Tag` response header, when present.
    pub x_robots_tag: Option<String>,
}

/// The record handed to the search index.
#[derive(Debug)]
pub struct IndexedDocument {
    pub id: String,
    pub tenant_id: Option<String>,
    pub url: String,
    pub domain: String,
    pub title: Option<String>,
    pub content: String,
    pub excerpt: String,
    /// Seconds since the epoch.
    pub crawled_at: i64,
    pub http_status: i32,
}

} // verus!
