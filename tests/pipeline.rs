use lala_agent::api::{enqueue_entry, enqueue_target, search_window, tenant_from_validation, tenant_session, SearchRequest};
use lala_agent::crawler::{crawl_after_robots, crawl_finish, crawl_start, robots_body, CrawlStart};
use lala_agent::digest::{content_hash, document_id};
use lala_agent::discovery::{admit_link, build_indexed_document, excerpt, link_target, links_to_follow, post_crawl_plan};
use lala_agent::model::{CrawlErrorType, CrawlQueueEntry, CrawlRequest, CrawlResult, CrawledPage};
use lala_agent::modes::DeploymentMode;
use lala_agent::pipeline::{
    backoff_minutes, check_fetch, check_upload, create_crawled_page, handle_crawl_failure,
    page_key, requeue_entry, should_retry, CrawlFailure,
};
use lala_agent::robots::get_robots_directives;
use lala_agent::scheduler::{advance, scheduler_keyspaces, sleeps_after, EntryEvent, EntryStep};
use lala_agent::storage::CompressionType;
use lala_agent::tenant::{crawling_enabled, default_crawling_enabled, setting_value, sum_counters, KeyspaceScope};

fn entry(url: &str, domain: &str, attempt_count: i32, priority: i32, scheduled_at: i64) -> CrawlQueueEntry {
    CrawlQueueEntry {
        priority,
        scheduled_at,
        url: url.to_string(),
        domain: domain.to_string(),
        last_attempt_at: None,
        attempt_count,
        created_at: scheduled_at,
    }
}

fn fetched(url: &str, body: &str, tag: Option<&str>) -> CrawlResult {
    CrawlResult {
        url: url.to_string(),
        allowed_by_robots: true,
        content: Some(body.to_string()),
        error: None,
        x_robots_tag: tag.map(|t| t.to_string()),
    }
}

#[test]
fn test_create_crawled_page_success() {
    let e = entry("https://example.com/a/b?q=1", "example.com", 0, 1, 1_000);
    let result = fetched(&e.url, "hello", None);
    let page = create_crawled_page(&e, &result, Some(42), CompressionType::Plain, &None, 5_000).unwrap();
    assert_eq!(page.domain, "example.com");
    assert_eq!(page.url_path, "/a/b");
    assert_eq!(page.url, e.url);
    assert_eq!(page.http_status, 200);
    assert_eq!(page.crawl_count, 1);
    assert_eq!(page.created_at, 5_000);
    assert_eq!(page.next_crawl_at, 5_000 + 24 * 3_600_000);
    assert_eq!(page.content_hash, "5d41402abc4b2a76b9719d911017c592");
    assert_eq!(page.content_length, 5);
    assert_eq!(page.storage_id, Some(42));
}

#[test]
fn recrawl_counts_up_and_keeps_creation_time() {
    let e = entry("https://example.com/p", "example.com", 0, 1, 0);
    let result = fetched(&e.url, "body", None);
    let first = create_crawled_page(&e, &result, None, CompressionType::Plain, &None, 100).unwrap();
    let second = create_crawled_page(&e, &result, None, CompressionType::Plain, &Some(first), 900).unwrap();
    assert_eq!(second.crawl_count, 2);
    assert_eq!(second.created_at, 100);
    assert_eq!(second.updated_at, 900);
    let third = create_crawled_page(&e, &result, None, CompressionType::Plain, &Some(second), 1900).unwrap();
    assert_eq!(third.crawl_count, 3);
}

#[test]
fn page_of_unparsable_url_is_a_database_failure() {
    let e = entry("not a url", "d", 0, 1, 0);
    let result = fetched("not a url", "x", None);
    let failure = create_crawled_page(&e, &result, None, CompressionType::Plain, &None, 0).unwrap_err();
    assert_eq!(failure.kind, CrawlErrorType::DatabaseError);
    assert!(page_key(&e).is_err());
}

#[test]
fn content_hash_is_lowercase_md5_hex() {
    assert_eq!(content_hash(""), "d41d8cd98f00b204e9800998ecf8427e");
    assert_eq!(content_hash("a"), content_hash("a"));
    assert_ne!(content_hash("a"), content_hash("b"));
}

#[test]
fn fetch_outcomes_are_classified() {
    let robots = CrawlResult { url: "u".into(), allowed_by_robots: false, content: None, error: None, x_robots_tag: None };
    let f = check_fetch(&Ok(robots)).unwrap_err();
    assert_eq!(f.kind, CrawlErrorType::RobotsDisallowed);
    let missing = CrawlResult { url: "u".into(), allowed_by_robots: true, content: None, error: Some("timeout".into()), x_robots_tag: None };
    let f = check_fetch(&Ok(missing)).unwrap_err();
    assert_eq!(f.kind, CrawlErrorType::FetchError);
    assert_eq!(f.message, "timeout");
    let f = check_fetch(&Err("dns".to_string())).unwrap_err();
    assert_eq!(f.message, "Failed to crawl: dns");
    assert_eq!(check_fetch(&Ok(fetched("u", "<p/>", None))).unwrap(), "<p/>");
}

#[test]
fn storage_is_a_required_stage() {
    let f = check_upload(None).unwrap_err();
    assert_eq!(f.kind, CrawlErrorType::StorageError);
    let f = check_upload(Some(Err("denied".into()))).unwrap_err();
    assert_eq!(f.message, "S3 upload failed: denied");
    assert_eq!(check_upload(Some(Ok((7, CompressionType::Gzip)))).unwrap(), (7, CompressionType::Gzip));
}

#[test]
fn robots_disallow_is_terminal() {
    let request = CrawlRequest {
        url: "https://www.google.com/search".to_string(),
        user_agent: "LalaSearchBot/0.1".to_string(),
    };
    let robots_url = match crawl_start(&request) {
        CrawlStart::FetchRobots(u) => u,
        CrawlStart::Done(_) => panic!("a valid URL goes on to robots.txt"),
    };
    assert_eq!(robots_url, "https://www.google.com/robots.txt");
    let txt = robots_body(Some(200), Some("User-agent: *\nDisallow: /search\n".to_string()));
    let result = crawl_after_robots(&request, &txt).unwrap().unwrap();
    assert!(!result.allowed_by_robots);
    assert!(result.content.is_none());
    let failure = check_fetch(&Ok(result)).unwrap_err();
    assert_eq!(failure.kind, CrawlErrorType::RobotsDisallowed);
    let e = entry(&request.url, "www.google.com", 0, 1, 0);
    let plan = handle_crawl_failure(&e, &failure, 10);
    assert!(plan.retry.is_none());
    assert_eq!(plan.error.error_type.to_string(), "robots_disallowed");
    assert_eq!(plan.error.domain, "www.google.com");
    assert_eq!(plan.error.attempt_count, 1);
}

#[test]
fn crawl_of_invalid_url_makes_no_request() {
    let request = CrawlRequest { url: "not-a-valid-url".into(), user_agent: "bot".into() };
    match crawl_start(&request) {
        CrawlStart::Done(Ok(r)) => {
            assert!(!r.allowed_by_robots);
            assert!(r.error.unwrap().starts_with("Invalid URL: "));
        }
        _ => panic!("an invalid URL ends the fetch"),
    }
}

#[test]
fn robots_failures_are_permissive_and_page_outcomes_recorded() {
    assert_eq!(robots_body(Some(404), Some("Disallow: /".into())), "");
    assert_eq!(robots_body(None, None), "");
    let request = CrawlRequest { url: "https://example.com/a".into(), user_agent: "bot".into() };
    assert!(crawl_after_robots(&request, "").is_none());
    let r = crawl_finish(&request, Ok((200, Some("noindex".into()), Ok("<p>x</p>".into()))));
    assert!(r.allowed_by_robots);
    assert_eq!(r.content.as_deref(), Some("<p>x</p>"));
    assert_eq!(r.x_robots_tag.as_deref(), Some("noindex"));
    let r = crawl_finish(&request, Err("refused".into()));
    assert_eq!(r.error.as_deref(), Some("Failed to fetch content: refused"));
    let r = crawl_finish(&request, Ok((404, None, Ok("not found".into()))));
    assert!(r.content.is_none());
    assert!(r.error.is_some());
    let r = crawl_finish(&request, Ok((200, None, Ok(String::new()))));
    assert!(r.content.is_none());
    assert_eq!(check_fetch(&Ok(r)).unwrap_err().kind, CrawlErrorType::FetchError);
}

#[test]
fn noindex_page_is_recorded_not_indexed_and_links_followed() {
    let base = "http://127.0.0.1:8080/p";
    let html = r#"<!doctype html><html><head><meta name="robots" content="noindex"><title>T</title></head><body><a href="/x">x</a></body></html>"#;
    let e = entry(base, "127.0.0.1", 0, 1, 0);
    let result = fetched(base, html, None);
    let content = check_fetch(&Ok(fetched(base, html, None))).unwrap();
    let page = create_crawled_page(&e, &result, Some(1), CompressionType::Plain, &None, 1_000).unwrap();
    assert_eq!(page.http_status, 200);
    assert_eq!(page.domain, "127.0.0.1");
    let directives = get_robots_directives(&content, None);
    let plan = post_crawl_plan(directives, true);
    assert!(!plan.index);
    assert!(plan.discover);
    let links = links_to_follow(directives, &content, &e.url);
    assert_eq!(links, vec!["http://127.0.0.1:8080/x".to_string()]);
    let (host, _path) = link_target(&links[0]).unwrap();
    let queued = admit_link(&e, &links[0], &host, true, false, 2_000).unwrap();
    assert_eq!(queued.url, "http://127.0.0.1:8080/x");
    assert_eq!(queued.priority, 1);
    assert_eq!(queued.attempt_count, 0);
}

#[test]
fn nofollow_offers_no_links() {
    let html = r#"<a href="/x">x</a><a href="/y">y</a>"#;
    let directives = get_robots_directives(html, Some("nofollow"));
    assert!(links_to_follow(directives, html, "https://example.com/").is_empty());
    assert!(!post_crawl_plan(directives, true).discover);
}

#[test]
fn links_outside_the_allow_list_are_not_queued() {
    let parent = entry("https://a.example/", "a.example", 0, 3, 0);
    assert!(admit_link(&parent, "https://b.example/", "b.example", false, false, 5).is_none());
    assert!(admit_link(&parent, "https://a.example/seen", "a.example", true, true, 5).is_none());
    assert!(link_target("mailto:someone@example.com").is_none());
    assert!(link_target("::").is_none());
}

#[test]
fn retry_backoff() {
    let t = 1_700_000_000_000i64;
    let mut e = entry("https://example.com/down", "example.com", 0, 1, t);
    let failure = CrawlFailure { kind: CrawlErrorType::FetchError, message: "connection refused".into() };
    let plan = handle_crawl_failure(&e, &failure, t);
    let retry = plan.retry.unwrap();
    assert_eq!(retry.attempt_count, 1);
    assert_eq!(retry.priority, 2);
    assert!(retry.scheduled_at >= t + 60_000);
    assert_eq!(retry.created_at, t);
    assert_eq!(retry.last_attempt_at, Some(t));
    let mut now = t;
    for _ in 0..5 {
        now = e.scheduled_at;
        let plan = handle_crawl_failure(&e, &failure, now);
        e = plan.retry.unwrap();
    }
    assert_eq!(e.attempt_count, 5);
    let last = handle_crawl_failure(&e, &failure, now + 1);
    assert!(last.retry.is_none());
    assert_eq!(last.error.error_type, CrawlErrorType::FetchError);
    assert_eq!(last.error.attempt_count, 6);
}

#[test]
fn backoff_doubles_per_attempt() {
    assert_eq!(backoff_minutes(0), 1);
    assert_eq!(backoff_minutes(4), 16);
    let e = entry("u", "d", 3, 7, 0);
    let r = requeue_entry(&e, 1_000);
    assert_eq!(r.scheduled_at, 1_000 + 8 * 60_000);
    assert!(!should_retry(CrawlErrorType::InvalidUrl, 0));
    assert!(should_retry(CrawlErrorType::SearchIndexError, 4));
    assert!(!should_retry(CrawlErrorType::StorageError, 5));
}

#[test]
fn tenants_are_isolated() {
    let url = "https://en.wikipedia.org/wiki/Main_Page";
    let a = document_id(&Some("A".to_string()), url);
    let b = document_id(&Some("B".to_string()), url);
    assert_eq!(a, format!("{:x}", md5::compute(format!("A{}", url))));
    assert_ne!(a, b);
    assert_eq!(document_id(&None, url), format!("{:x}", md5::compute(url)));
    let base = KeyspaceScope::new("tenant_a");
    let other = base.with_keyspace("tenant_b");
    assert_eq!(base.table("crawled_pages"), "tenant_a.crawled_pages");
    assert_ne!(base.table("crawled_pages"), other.table("crawled_pages"));
}

#[test]
fn search_document_fields() {
    let e = entry("https://example.com/p", "example.com", 0, 1, 0);
    let html = format!("<title>Doc</title><p>{}</p>", "w ".repeat(400));
    let result = fetched(&e.url, &html, None);
    let page = create_crawled_page(&e, &result, None, CompressionType::Plain, &None, 12_345).unwrap();
    let doc = build_indexed_document(&Some("A".into()), &e, &page, &html);
    assert_eq!(doc.title.as_deref(), Some("Doc"));
    assert_eq!(doc.crawled_at, 12);
    assert_eq!(doc.http_status, 200);
    assert_eq!(doc.excerpt.chars().count(), 500);
    assert!(doc.content.starts_with(&doc.excerpt));
    assert_eq!(doc.tenant_id.as_deref(), Some("A"));
    assert_eq!(excerpt("short"), "short");
    let long = "é".repeat(600);
    assert_eq!(excerpt(&long), "é".repeat(500));
}

#[test]
fn crawling_disabled() {
    let step = advance(EntryStep::ReadSetting, EntryEvent::SettingRead(Ok(false)));
    assert!(matches!(step, EntryStep::Finished(Ok(false))));
    assert!(sleeps_after(&Ok(false)));
    assert!(!crawling_enabled(&Some(setting_value(false).to_string()), true));
    assert!(crawling_enabled(&Some(setting_value(true).to_string()), false));
    assert!(default_crawling_enabled(&Some("dev".into())));
    assert!(!default_crawling_enabled(&Some("prod".into())));
    assert!(!crawling_enabled(&None, false));
}

#[test]
fn scheduler_run_leases_before_processing() {
    let step = advance(EntryStep::ReadSetting, EntryEvent::SettingRead(Ok(true)));
    assert!(matches!(step, EntryStep::Poll));
    let e = entry("https://example.com/", "example.com", 0, 1, 0);
    let step = advance(step, EntryEvent::Polled(Ok(Some(e))));
    assert!(matches!(step, EntryStep::Lease(_)));
    let step = advance(step, EntryEvent::Deleted(Ok(())));
    assert!(matches!(step, EntryStep::Process(_)));
    let step = advance(step, EntryEvent::Processed);
    assert!(matches!(step, EntryStep::Finished(Ok(true))));
    assert!(!sleeps_after(&Ok(true)));
    let empty = advance(EntryStep::Poll, EntryEvent::Polled(Ok(None)));
    assert!(matches!(empty, EntryStep::Finished(Ok(false))));
    match advance(EntryStep::Poll, EntryEvent::Polled(Err("down".into()))) {
        EntryStep::Finished(Err(m)) => assert_eq!(m, "Failed to get queue entry: down"),
        _ => panic!("a failed poll ends the run"),
    }
}

#[test]
fn scheduler_keyspaces_per_mode() {
    let listed = vec!["t1".to_string(), "t2".to_string()];
    assert_eq!(scheduler_keyspaces(DeploymentMode::SingleTenant, "base", listed.clone()), vec!["base"]);
    assert_eq!(scheduler_keyspaces(DeploymentMode::MultiTenant, "base", listed.clone()), listed);
}

#[test]
fn enqueue_allowed_disallowed_invalid() {
    let url = "https://en.wikipedia.org/wiki/Main_Page";
    let domain = enqueue_target(url).unwrap();
    assert_eq!(domain, "en.wikipedia.org");
    let queued = enqueue_entry(url, &domain, 1, domain == "en.wikipedia.org", 77).unwrap();
    assert_eq!(queued.domain, "en.wikipedia.org");
    assert_eq!(queued.priority, 1);
    let other = enqueue_target("https://example.com/x").unwrap();
    let refused = enqueue_entry("https://example.com/x", &other, 1, other == "en.wikipedia.org", 77).unwrap_err();
    assert_eq!(refused.status, 403);
    assert!(refused.message.contains("example.com"));
    let invalid = enqueue_target("not-a-url").unwrap_err();
    assert_eq!(invalid.status, 400);
}

#[test]
fn requests_are_scoped_to_a_tenant() {
    assert!(matches!(tenant_session(DeploymentMode::SingleTenant, false, None), Ok(None)));
    assert_eq!(tenant_session(DeploymentMode::MultiTenant, false, Some("t".into())).unwrap_err().status, 503);
    assert_eq!(tenant_session(DeploymentMode::MultiTenant, true, None).unwrap_err().status, 401);
    assert_eq!(tenant_session(DeploymentMode::MultiTenant, true, Some("tok".into())).unwrap(), Some("tok".to_string()));
    assert_eq!(tenant_from_validation(Ok(Some("acme".into()))).unwrap(), "acme");
    assert_eq!(tenant_from_validation(Ok(None)).unwrap_err().status, 401);
    assert_eq!(tenant_from_validation(Err("x".into())).unwrap_err().status, 500);
}

#[test]
fn search_paging_defaults_and_caps() {
    let req = SearchRequest { query: "q".into(), limit: None, offset: None };
    assert_eq!(search_window(&req), (20, 0));
    let req = SearchRequest { query: "q".into(), limit: Some(5000), offset: Some(40) };
    assert_eq!(search_window(&req), (1000, 40));
}

#[test]
fn null_counters_count_as_zero() {
    assert_eq!(sum_counters(&vec![Some(3), None, Some(4)]), 7);
    assert_eq!(sum_counters(&vec![]), 0);
}

#[test]
fn page_rows_carry_the_fields_read_back() {
    let page = CrawledPage {
        domain: "d".into(),
        url_path: "/".into(),
        url: "https://d/".into(),
        storage_id: None,
        storage_compression: CompressionType::from_db_value(1),
        last_crawled_at: 0,
        next_crawl_at: 0,
        crawl_frequency_hours: 24,
        http_status: 200,
        content_hash: String::new(),
        content_length: 0,
        robots_allowed: true,
        error_message: None,
        crawl_count: 1,
        created_at: 0,
        updated_at: 0,
    };
    assert_eq!(page.storage_compression, CompressionType::Gzip);
}

#[test]
fn invalid_urls_are_terminal() {
    for url in ["not-a-valid-url", "mailto:someone@example.com"] {
        let request = CrawlRequest { url: url.into(), user_agent: "bot".into() };
        let result = match crawl_start(&request) {
            CrawlStart::Done(Ok(r)) => r,
            _ => panic!("no request is made for {url}"),
        };
        let failure = check_fetch(&Ok(result)).unwrap_err();
        assert_eq!(failure.kind, CrawlErrorType::InvalidUrl);
        let e = entry(url, "d", 0, 1, 0);
        let plan = handle_crawl_failure(&e, &failure, 5);
        assert!(plan.retry.is_none());
        assert_eq!(plan.error.domain, "d");
        assert_eq!(plan.error.error_type.to_string(), "invalid_url");
    }
}

#[test]
fn out_of_range_entries_are_logged_without_retry() {
    let failure = CrawlFailure { kind: CrawlErrorType::FetchError, message: "x".into() };
    let e = entry("https://example.com/", "example.com", 0, i32::MAX, 0);
    let plan = handle_crawl_failure(&e, &failure, 10);
    assert!(plan.retry.is_none());
    assert_eq!(plan.error.attempt_count, 1);
    let e = entry("https://example.com/", "example.com", i32::MAX, 1, 0);
    let plan = handle_crawl_failure(&e, &failure, 10);
    assert_eq!(plan.error.attempt_count, i32::MAX);
}
