//! The stages that one leased queue entry goes through, as decisions on the
//! outcomes of the outside work: fetch, store, record, index, discover, and
//! the classification and retry of failures.
use vstd::prelude::*;
use vstd::string::*;
use vstd::utf8::encode_utf8;
use vstd::arithmetic::power2::{pow2, lemma2_to64, lemma2_to64_rest, lemma_pow2_strictly_increases, lemma_pow2_unfold};
use crate::digest::{content_hash, md5_hex_of};
use crate::model::{CrawlError, CrawlErrorType, CrawlQueueEntry, CrawlResult, CrawledPage};
use crate::storage::CompressionType;
use crate::weburl::{host_of, host_or, parse_url, url_parts_of};

verus! {

/// Attempts after which a failing URL is given up.
pub const MAX_RETRY_ATTEMPTS: i32 = 5;

/// Hours until a crawled page is due again.
pub const CRAWL_FREQUENCY_HOURS: i32 = 24;

pub const MILLIS_PER_MINUTE: i64 = 60000;

pub const MILLIS_PER_HOUR: i64 = 3600000;

/// A classified failure of one stage; it ends the pipeline for the entry.
#[derive(Debug)]
pub struct CrawlFailure {
    pub kind: CrawlErrorType,
    pub message: String,
}

/// The fetch stage: a URL the fetcher refused as invalid, a robots denial,
/// or a missing body fails the entry; otherwise the body goes on.
pub fn check_fetch(fetched: &Result<CrawlResult, String>) -> (r: Result<String, CrawlFailure>)
    ensures
        match fetched {
            Err(e) => r matches Err(f) && f.kind == CrawlErrorType::FetchError && f.message@
                == "Failed to crawl: "@ + e@,
            Ok(res) => if !res.allowed_by_robots {
                match res.error {
                    Some(e) => r matches Err(f) && f.kind == CrawlErrorType::InvalidUrl
                        && f.message@ == e@,
                    None => r matches Err(f) && f.kind == CrawlErrorType::RobotsDisallowed
                        && f.message@ == "Crawling disallowed by robots.txt"@,
                }
            } else {
                match res.content {
                    Some(c) => r matches Ok(s) && s@ == c@,
                    None => r matches Err(f) && f.kind == CrawlErrorType::FetchError && f.message@
                        == match res.error {
                        Some(e) => e@,
                        None => "No content retrieved"@,
                    },
                }
            },
        },
{
    match fetched {
        Err(e) => Err(
            CrawlFailure {
                kind: CrawlErrorType::FetchError,
                message: String::from_str("Failed to crawl: ").concat(e.as_str()),
            },
        ),
        Ok(res) => {
            if !res.allowed_by_robots {
                match &res.error {
                    Some(e) => Err(CrawlFailure { kind: CrawlErrorType::InvalidUrl, message: e.clone() }),
                    None => Err(
                        CrawlFailure {
                            kind: CrawlErrorType::RobotsDisallowed,
                            message: String::from_str("Crawling disallowed by robots.txt"),
                        },
                    ),
                }
            } else {
                match &res.content {
                    Some(c) => Ok(c.clone()),
                    None => {
                        let message = match &res.error {
                            Some(e) => e.clone(),
                            None => String::from_str("No content retrieved"),
                        };
                        Err(CrawlFailure { kind: CrawlErrorType::FetchError, message })
                    },
                }
            }
        },
    }
}

/// The store stage: `None` when no object store is configured, else what
/// the upload returned.
pub fn check_upload(upload: Option<Result<(u128, CompressionType), String>>) -> (r: Result<
    (u128, CompressionType),
    CrawlFailure,
>)
    ensures
        match upload {
            None => r matches Err(f) && f.kind == CrawlErrorType::StorageError && f.message@
                == "Storage client not configured"@,
            Some(Err(e)) => r matches Err(f) && f.kind == CrawlErrorType::StorageError
                && f.message@ == "S3 upload failed: "@ + e@,
            Some(Ok(v)) => r == Ok::<(u128, CompressionType), CrawlFailure>(v),
        },
{
    match upload {
        None => Err(
            CrawlFailure {
                kind: CrawlErrorType::StorageError,
                message: String::from_str("Storage client not configured"),
            },
        ),
        Some(Err(e)) => Err(
            CrawlFailure {
                kind: CrawlErrorType::StorageError,
                message: String::from_str("S3 upload failed: ").concat(e.as_str()),
            },
        ),
        Some(Ok(v)) => Ok(v),
    }
}

/// The (domain, path) under which the page of `url` is recorded: the URL's
/// host, or `fallback` when it has none.
pub open spec fn page_key_of(url: Seq<char>, fallback: Seq<char>) -> Option<(Seq<char>, Seq<char>)> {
    match url_parts_of(url) {
        Some((h, p)) => Some(
            (
                match h {
                    Some(h) => h,
                    None => fallback,
                },
                p,
            ),
        ),
        None => None,
    }
}

/// The key of the page row for a queue entry; an unparsable URL fails the
/// record stage.
pub fn page_key(entry: &CrawlQueueEntry) -> (r: Result<(String, String), CrawlFailure>)
    ensures
        match page_key_of(entry.url@, entry.domain@) {
            Some((d, p)) => r matches Ok(k) && k.0@ == d && k.1@ == p,
            None => r matches Err(f) && f.kind == CrawlErrorType::DatabaseError,
        },
{
    match parse_url(entry.url.as_str()) {
        Ok(parts) => {
            let domain = match parts.host {
                Some(h) => h,
                None => entry.domain.clone(),
            };
            Ok((domain, parts.path))
        },
        Err(e) => Err(
            CrawlFailure {
                kind: CrawlErrorType::DatabaseError,
                message: String::from_str("Failed to create page: ").concat(e.as_str()),
            },
        ),
    }
}

/// HTTP status recorded for a fetch outcome.
pub open spec fn status_for(allowed: bool, has_content: bool) -> i32 {
    if !allowed {
        403
    } else if has_content {
        200
    } else {
        500
    }
}

pub open spec fn opt_str(o: Option<String>) -> Option<Seq<char>> {
    match o {
        Some(s) => Some(s@),
        None => None,
    }
}

/// What the record stage writes for `entry`, given what an earlier crawl of
/// the same page left (`prior`), at time `now_ms`.
pub open spec fn is_page_record(
    p: CrawledPage,
    entry: CrawlQueueEntry,
    result: CrawlResult,
    storage_id: Option<u128>,
    compression: CompressionType,
    prior: Option<CrawledPage>,
    now_ms: i64,
) -> bool {
    &&& page_key_of(entry.url@, entry.domain@) == Some(p.key())
    &&& p.url@ == entry.url@
    &&& p.storage_id == storage_id
    &&& p.storage_compression == compression
    &&& p.last_crawled_at == now_ms
    &&& p.crawl_frequency_hours == CRAWL_FREQUENCY_HOURS
    &&& p.next_crawl_at == now_ms + CRAWL_FREQUENCY_HOURS * MILLIS_PER_HOUR
    &&& p.http_status == status_for(result.allowed_by_robots, result.content is Some)
    &&& match result.content {
        Some(c) => p.content_hash@ == md5_hex_of(encode_utf8(c@)) && p.content_length
            == encode_utf8(c@).len() as usize as i64,
        None => p.content_hash@ == Seq::<char>::empty() && p.content_length == 0,
    }
    &&& p.robots_allowed == result.allowed_by_robots
    &&& opt_str(p.error_message) == opt_str(result.error)
    &&& match prior {
        Some(old) => p.crawl_count == old.crawl_count + 1 && p.created_at == old.created_at,
        None => p.crawl_count == 1 && p.created_at == now_ms,
    }
    &&& p.updated_at == now_ms
}

fn clone_opt(o: &Option<String>) -> (r: Option<String>)
    ensures
        opt_str(r) == opt_str(*o),
{
    match o {
        Some(s) => Some(s.clone()),
        None => None,
    }
}

/// Builds the page row for a fetched entry. `prior` is the row already stored
/// under the same key, if any: its count goes up by one and its creation
/// time is kept.
pub fn create_crawled_page(
    entry: &CrawlQueueEntry,
    result: &CrawlResult,
    storage_id: Option<u128>,
    storage_compression: CompressionType,
    prior: &Option<CrawledPage>,
    now_ms: i64,
) -> (r: Result<CrawledPage, CrawlFailure>)
    requires
        now_ms <= i64::MAX - CRAWL_FREQUENCY_HOURS * MILLIS_PER_HOUR,
        prior matches Some(old) ==> old.crawl_count < i32::MAX,
    ensures
        match r {
            Ok(p) => is_page_record(
                p,
                *entry,
                *result,
                storage_id,
                storage_compression,
                *prior,
                now_ms,
            ),
            Err(f) => page_key_of(entry.url@, entry.domain@) is None && f.kind
                == CrawlErrorType::DatabaseError,
        },
{
    let (domain, url_path) = match page_key(entry) {
        Ok(k) => k,
        Err(f) => {
            return Err(f);
        },
    };
    let (content_hash, content_length) = match &result.content {
        Some(c) => (content_hash(c.as_str()), c.as_str().len() as i64),
        None => (String::new(), 0i64),
    };
    let http_status: i32 = if result.allowed_by_robots {
        if result.content.is_some() {
            200
        } else {
            500
        }
    } else {
        403
    };
    let (crawl_count, created_at) = match prior {
        Some(old) => (old.crawl_count + 1, old.created_at),
        None => (1i32, now_ms),
    };
    Ok(
        CrawledPage {
            domain,
            url_path,
            url: entry.url.clone(),
            storage_id,
            storage_compression,
            last_crawled_at: now_ms,
            next_crawl_at: now_ms + CRAWL_FREQUENCY_HOURS as i64 * MILLIS_PER_HOUR,
            crawl_frequency_hours: CRAWL_FREQUENCY_HOURS,
            http_status,
            content_hash,
            content_length,
            robots_allowed: result.allowed_by_robots,
            error_message: clone_opt(&result.error),
            crawl_count,
            created_at,
            updated_at: now_ms,
        },
    )
}

/// Backoff before the retry that follows attempt `attempt`: 2^attempt minutes.
pub fn backoff_minutes(attempt: i32) -> (r: i64)
    requires
        0 <= attempt <= 62,
    ensures
        r == pow2(attempt as nat),
{
    let mut r: i64 = 1;
    let mut i: i32 = 0;
    proof {
        lemma2_to64();
    }
    while i < attempt
        invariant
            0 <= i <= attempt <= 62,
            r == pow2(i as nat),
        decreases attempt - i,
    {
        proof {
            lemma_pow2_unfold((i + 1) as nat);
            if i + 1 < 62 {
                lemma_pow2_strictly_increases((i + 1) as nat, 62);
            }
            lemma2_to64_rest();
        }
        r = r * 2;
        i = i + 1;
    }
    r
}

/// Whether a failure is retried: never for a terminal kind, otherwise while
/// fewer than `MAX_RETRY_ATTEMPTS` attempts were made.
pub fn should_retry(kind: CrawlErrorType, attempt_count: i32) -> (r: bool)
    ensures
        r == (!kind.is_terminal() && attempt_count < MAX_RETRY_ATTEMPTS),
{
    match kind {
        CrawlErrorType::RobotsDisallowed | CrawlErrorType::InvalidUrl => false,
        _ => attempt_count < MAX_RETRY_ATTEMPTS,
    }
}

/// `r` is the queue row that retries `e` at time `now_ms`.
pub open spec fn is_retry_of(r: CrawlQueueEntry, e: CrawlQueueEntry, now_ms: i64) -> bool {
    &&& r.priority == e.priority + 1
    &&& r.scheduled_at == now_ms + pow2(e.attempt_count as nat) * MILLIS_PER_MINUTE
    &&& r.url@ == e.url@
    &&& r.domain@ == e.domain@
    &&& r.last_attempt_at == Some(now_ms)
    &&& r.attempt_count == e.attempt_count + 1
    &&& r.created_at == e.created_at
}

/// The row that re-queues `entry` after a failure at `now_ms`: one step lower
/// in priority, one more attempt, due after the exponential backoff.
pub fn requeue_entry(entry: &CrawlQueueEntry, now_ms: i64) -> (r: CrawlQueueEntry)
    requires
        0 <= entry.attempt_count <= 62,
        entry.priority < i32::MAX,
        0 <= now_ms,
        now_ms + pow2(entry.attempt_count as nat) * MILLIS_PER_MINUTE <= i64::MAX,
    ensures
        is_retry_of(r, *entry, now_ms),
{
    let minutes = backoff_minutes(entry.attempt_count);
    CrawlQueueEntry {
        priority: entry.priority + 1,
        scheduled_at: now_ms + minutes * MILLIS_PER_MINUTE,
        url: entry.url.clone(),
        domain: entry.domain.clone(),
        last_attempt_at: Some(now_ms),
        attempt_count: entry.attempt_count + 1,
        created_at: entry.created_at,
    }
}

/// The error row logged for a failure of `entry` at `now_ms`.
pub open spec fn is_error_record(
    r: CrawlError,
    entry: CrawlQueueEntry,
    kind: CrawlErrorType,
    message: Seq<char>,
    now_ms: i64,
) -> bool {
    &&& r.domain@ == match host_of(entry.url@) {
        Some(h) => h,
        None => entry.domain@,
    }
    &&& r.occurred_at == now_ms
    &&& r.url@ == entry.url@
    &&& r.error_type == kind
    &&& r.error_message@ == message
    &&& r.attempt_count == (if entry.attempt_count < i32::MAX {
        entry.attempt_count + 1
    } else {
        i32::MAX as int
    })
    &&& r.stack_trace is None
}

/// A retry row of `e` at `now_ms` fits the row's types: attempts start at
/// zero, the priority can go one lower, and the clock reads after 1970 and
/// far enough from the end of `i64` for the backoff.
pub open spec fn retry_fits(e: CrawlQueueEntry, now_ms: i64) -> bool {
    &&& 0 <= e.attempt_count
    &&& e.priority < i32::MAX
    &&& 0 <= now_ms <= i64::MAX - 16 * MILLIS_PER_MINUTE
}

/// What follows a failure: the error row to log and, when the failure is
/// retried, the row to re-queue.
#[derive(Debug)]
pub struct FailurePlan {
    pub error: CrawlError,
    pub retry: Option<CrawlQueueEntry>,
}

/// Classifies a failed entry: the error is always logged; robots denials and
/// invalid URLs are never retried, other kinds are retried while fewer than
/// `MAX_RETRY_ATTEMPTS` attempts were made (and the retry row fits its
/// types).
pub fn handle_crawl_failure(entry: &CrawlQueueEntry, failure: &CrawlFailure, now_ms: i64) -> (r:
    FailurePlan)
    ensures
        is_error_record(r.error, *entry, failure.kind, failure.message@, now_ms),
        r.retry is Some <==> (!failure.kind.is_terminal() && entry.attempt_count
            < MAX_RETRY_ATTEMPTS && retry_fits(*entry, now_ms)),
        r.retry matches Some(n) ==> is_retry_of(n, *entry, now_ms),
{
    let error = CrawlError {
        domain: host_or(entry.url.as_str(), entry.domain.as_str()),
        occurred_at: now_ms,
        url: entry.url.clone(),
        error_type: failure.kind,
        error_message: failure.message.clone(),
        attempt_count: if entry.attempt_count < i32::MAX {
            entry.attempt_count + 1
        } else {
            i32::MAX
        },
        stack_trace: None,
    };
    let fits = 0 <= entry.attempt_count && entry.priority < i32::MAX && 0 <= now_ms && now_ms
        <= i64::MAX - 16 * MILLIS_PER_MINUTE;
    let retry = if should_retry(failure.kind, entry.attempt_count) && fits {
        proof {
            if entry.attempt_count < 4 {
                lemma_pow2_strictly_increases(entry.attempt_count as nat, 4);
            }
            lemma2_to64();
        }
        Some(requeue_entry(entry, now_ms))
    } else {
        None
    };
    FailurePlan { error, retry }
}

/// The queue keys after `e` was leased and processed: its own row deleted,
/// then the retry row (if any) and the discovered rows inserted.
pub open spec fn queue_after(
    queue: Set<(i32, i64, Seq<char>)>,
    e: CrawlQueueEntry,
    retry: Option<CrawlQueueEntry>,
    discovered: Seq<CrawlQueueEntry>,
) -> Set<(i32, i64, Seq<char>)> {
    let with_retry = match retry {
        Some(r) => queue.remove(e.key()).insert(r.key()),
        None => queue.remove(e.key()),
    };
    with_retry.union(Set::new(|k: (i32, i64, Seq<char>)| exists|i: int| 0 <= i < discovered.len() && #[trigger] discovered[i].key() == k))
}

/// Once `e` is processed, the queue holds no row under its key: a retry row
/// is one priority step lower, and rows discovered meanwhile are due at the
/// time of discovery, after `e` was due. A retry carries one more attempt
/// and is due no sooner than 2^attempts minutes after `e` was (when `e` was
/// leased at or after the time it was due).
pub proof fn lemma_processed_entry_leaves_queue(
    queue: Set<(i32, i64, Seq<char>)>,
    e: CrawlQueueEntry,
    retry: Option<CrawlQueueEntry>,
    discovered: Seq<CrawlQueueEntry>,
    now_ms: i64,
)
    requires
        retry matches Some(r) ==> is_retry_of(r, e, now_ms),
        forall|i: int| 0 <= i < discovered.len() ==> #[trigger] discovered[i].scheduled_at > e.scheduled_at,
        e.scheduled_at <= now_ms,
    ensures
        !queue_after(queue, e, retry, discovered).contains(e.key()),
        retry matches Some(r) ==> r.attempt_count == e.attempt_count + 1 && r.scheduled_at
            >= e.scheduled_at + pow2(e.attempt_count as nat) * MILLIS_PER_MINUTE,
{
    if exists|i: int| 0 <= i < discovered.len() && #[trigger] discovered[i].key() == e.key() {
        let i = choose|i: int| 0 <= i < discovered.len() && #[trigger] discovered[i].key() == e.key();
        assert(discovered[i].scheduled_at > e.scheduled_at);
    }
}

} // verus!
