use lala_agent::model::{CrawlErrorType, CrawlQueueEntry, CrawlResult};
use lala_agent::stages::{next_stage, CrawlEvent, CrawlStage};
use lala_agent::storage::CompressionType;

fn entry(url: &str) -> CrawlQueueEntry {
    CrawlQueueEntry {
        priority: 1,
        scheduled_at: 0,
        url: url.to_string(),
        domain: "127.0.0.1".to_string(),
        last_attempt_at: None,
        attempt_count: 0,
        created_at: 0,
    }
}

fn body(url: &str, html: &str, tag: Option<&str>) -> CrawlResult {
    CrawlResult {
        url: url.to_string(),
        allowed_by_robots: true,
        content: Some(html.to_string()),
        error: None,
        x_robots_tag: tag.map(|t| t.to_string()),
    }
}

/// Runs the stages on a fetched body with every outside call succeeding;
/// returns the final stage and whether the index stage was reached.
fn run(e: &CrawlQueueEntry, fetched: CrawlResult, search: bool) -> (CrawlStage, bool, bool) {
    let mut stage = CrawlStage::Fetch;
    let mut recorded = false;
    let mut indexed = false;
    let mut fetched = Some(fetched);
    loop {
        let event = match &stage {
            CrawlStage::Fetch => CrawlEvent::Fetched(Ok(fetched.take().unwrap())),
            CrawlStage::Store { .. } => CrawlEvent::Uploaded(Some(Ok((9, CompressionType::Plain)))),
            CrawlStage::LookUp { .. } => CrawlEvent::LookedUp(Ok(None), 1_000),
            CrawlStage::Record { .. } => {
                recorded = true;
                CrawlEvent::Upserted(Ok(()))
            }
            CrawlStage::Index { .. } => {
                indexed = true;
                CrawlEvent::Indexed(Ok(()))
            }
            _ => break,
        };
        stage = next_stage(e, &None, search, stage, event);
    }
    (stage, recorded, indexed)
}

#[test]
fn happy_path_with_meta_noindex() {
    let url = "http://127.0.0.1:8080/p";
    let html = r#"<!doctype html><html><head><meta name="robots" content="noindex"><title>T</title></head><body><a href="/x">x</a></body></html>"#;
    let (stage, recorded, indexed) = run(&entry(url), body(url, html, None), true);
    assert!(recorded);
    assert!(!indexed);
    match stage {
        CrawlStage::Discover(links) => assert_eq!(links, vec!["http://127.0.0.1:8080/x".to_string()]),
        other => panic!("expected discovery, got {other:?}"),
    }
}

#[test]
fn indexable_page_is_indexed_then_links_offered() {
    let url = "http://127.0.0.1:8080/p";
    let html = r#"<title>T</title><a href="/y">y</a>"#;
    let (stage, recorded, indexed) = run(&entry(url), body(url, html, None), true);
    assert!(recorded && indexed);
    assert!(matches!(stage, CrawlStage::Discover(ref l) if l.len() == 1));
}

#[test]
fn header_nofollow_offers_no_links() {
    let url = "http://127.0.0.1:8080/p";
    let html = r#"<a href="/y">y</a>"#;
    let (stage, _, indexed) = run(&entry(url), body(url, html, Some("nofollow")), true);
    assert!(indexed);
    assert!(matches!(stage, CrawlStage::Done));
}

#[test]
fn missing_object_store_fails_with_storage_error() {
    let e = entry("http://127.0.0.1:8080/p");
    let stage = next_stage(&e, &None, true, CrawlStage::Fetch, CrawlEvent::Fetched(Ok(body(&e.url, "x", None))));
    let stage = next_stage(&e, &None, true, stage, CrawlEvent::Uploaded(None));
    match stage {
        CrawlStage::Failed(f) => assert_eq!(f.kind, CrawlErrorType::StorageError),
        other => panic!("expected a storage failure, got {other:?}"),
    }
}

#[test]
fn out_of_order_event_is_unknown_failure() {
    let e = entry("http://127.0.0.1:8080/p");
    match next_stage(&e, &None, true, CrawlStage::Fetch, CrawlEvent::Indexed(Ok(()))) {
        CrawlStage::Failed(f) => assert_eq!(f.kind, CrawlErrorType::Unknown),
        other => panic!("expected a failure, got {other:?}"),
    }
}

#[test]
fn failed_row_lookup_fails_the_entry() {
    let e = entry("http://127.0.0.1:8080/p");
    let stage = next_stage(&e, &None, true, CrawlStage::Fetch, CrawlEvent::Fetched(Ok(body(&e.url, "x", None))));
    let stage = next_stage(&e, &None, true, stage, CrawlEvent::Uploaded(Some(Ok((1, CompressionType::Plain)))));
    match next_stage(&e, &None, true, stage, CrawlEvent::LookedUp(Err("timeout".into()), 5)) {
        CrawlStage::Failed(f) => assert_eq!(f.kind, CrawlErrorType::DatabaseError),
        other => panic!("expected a database failure, got {other:?}"),
    }
}

#[test]
fn nofollow_page_offers_nothing_after_indexing() {
    let url = "http://127.0.0.1:8080/p";
    let html = r#"<meta name="robots" content="nofollow"><title>T</title><a href="/y">y</a>"#;
    let (stage, recorded, indexed) = run(&entry(url), body(url, html, None), true);
    assert!(recorded && indexed);
    assert!(matches!(stage, CrawlStage::Done));
}
