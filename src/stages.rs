//! The staged pipeline for one leased entry, as a state machine: each stage
//! names the outside work to do (fetch, upload, read the stored row, write
//! the row, index), and the outcome of that work decides the next stage.
//! Store precedes record, record precedes index, index precedes discover.
use vstd::prelude::*;
use crate::discovery::{build_indexed_document, is_document_for, links_to_follow, post_crawl_plan};
use crate::html::{anchors_of, links_of, text_le, views};
use crate::model::{CrawlErrorType, CrawlQueueEntry, CrawlResult, CrawledPage, IndexedDocument};
use crate::pipeline::{
    check_fetch, check_upload, create_crawled_page, is_page_record, page_key, page_key_of,
    CrawlFailure, CRAWL_FREQUENCY_HOURS, MILLIS_PER_HOUR,
};
use crate::robots::{
    get_robots_directives, header_directives, meta_directives, meta_tags_of, RobotsMetaDirectives,
};
use crate::storage::CompressionType;

verus! {

/// Where the pipeline for one entry stands.
#[derive(Debug)]
pub enum CrawlStage {
    /// Fetch the entry's URL.
    Fetch,
    /// Upload this body to the object store.
    Store { result: CrawlResult, content: String },
    /// Read the page row stored under (domain, path).
    LookUp {
        result: CrawlResult,
        content: String,
        storage_id: u128,
        compression: CompressionType,
        domain: String,
        path: String,
    },
    /// Write this page row.
    Record { page: CrawledPage, content: String, directives: RobotsMetaDirectives },
    /// Hand this document to the search index.
    Index { doc: IndexedDocument, content: String, directives: RobotsMetaDirectives },
    /// Offer these links to admission; the pipeline is then over.
    Discover(Vec<String>),
    /// A stage failed; the failure is classified and the pipeline is over.
    Failed(CrawlFailure),
    /// Nothing is left to do.
    Done,
}

/// The outcome of the work a stage named.
#[derive(Debug)]
pub enum CrawlEvent {
    Fetched(Result<CrawlResult, String>),
    /// `None` when no object store is configured.
    Uploaded(Option<Result<(u128, CompressionType), String>>),
    /// The stored row, if any (or why it could not be read), and the time of
    /// the record.
    LookedUp(Result<Option<CrawledPage>, String>, i64),
    Upserted(Result<(), String>),
    Indexed(Result<(), String>),
}

/// Directives in force for a body and its `X-Robots-Tag` header.
pub open spec fn directives_for(html: Seq<char>, tag: Option<String>) -> RobotsMetaDirectives {
    let m = meta_directives(meta_tags_of(html));
    let h = header_directives(
        match tag {
            Some(t) => Some(t@),
            None => None,
        },
    );
    RobotsMetaDirectives { noindex: m.noindex || h.noindex, nofollow: m.nofollow || h.nofollow }
}

pub open spec fn failed_as(r: CrawlStage, kind: CrawlErrorType) -> bool {
    r matches CrawlStage::Failed(f) && f.kind == kind
}

/// `r` offers exactly the followable links of `content`, once each, in
/// ascending order.
pub open spec fn offers_links_of(r: CrawlStage, content: Seq<char>, base: Seq<char>) -> bool {
    r matches CrawlStage::Discover(links) && views(links@).no_duplicates() && (forall|x: Seq<char>|
        views(links@).contains(x) <==> links_of(anchors_of(content), base).contains(x)) && (forall|
        i: int,
        j: int,
    | 0 <= i < j < links@.len() ==> #[trigger] text_le(views(links@)[i], views(links@)[j]))
}

/// What follows a recorded (or indexed) page: indexing unless `noindex` or
/// no search adapter (only right after recording), then discovery unless
/// `nofollow`.
fn after_record(
    entry: &CrawlQueueEntry,
    tenant_id: &Option<String>,
    search_configured: bool,
    page: Option<CrawledPage>,
    content: String,
    directives: RobotsMetaDirectives,
) -> (r: CrawlStage)
    ensures
        r is Index ==> page is Some && !directives.noindex && search_configured,
        page is Some && !directives.noindex && search_configured ==> (r matches CrawlStage::Index {
            doc,
            content: c,
            directives: d,
        } && is_document_for(doc, *tenant_id, *entry, page->0, content@) && c@ == content@ && d
            == directives),
        !(page is Some && !directives.noindex && search_configured) ==> {
            if directives.nofollow {
                r is Done
            } else {
                offers_links_of(r, content@, entry.url@)
            }
        },
{
    let plan = post_crawl_plan(directives, search_configured);
    match page {
        Some(p) => {
            if plan.index {
                let doc = build_indexed_document(tenant_id, entry, &p, content.as_str());
                return CrawlStage::Index { doc, content, directives };
            }
        },
        None => {},
    }
    if plan.discover {
        CrawlStage::Discover(links_to_follow(directives, content.as_str(), entry.url.as_str()))
    } else {
        CrawlStage::Done
    }
}

/// The next stage of the pipeline for `entry`.
pub fn next_stage(
    entry: &CrawlQueueEntry,
    tenant_id: &Option<String>,
    search_configured: bool,
    stage: CrawlStage,
    event: CrawlEvent,
) -> (r: CrawlStage)
    requires
        event matches CrawlEvent::LookedUp(Ok(prior), now) ==> now <= i64::MAX
            - CRAWL_FREQUENCY_HOURS * MILLIS_PER_HOUR && (prior matches Some(p) ==> p.crawl_count
            < i32::MAX),
    ensures
        match (stage, event) {
            (CrawlStage::Fetch, CrawlEvent::Fetched(f)) => match f {
                Err(_) => failed_as(r, CrawlErrorType::FetchError),
                Ok(res) => if !res.allowed_by_robots {
                    failed_as(
                        r,
                        if res.error is Some {
                            CrawlErrorType::InvalidUrl
                        } else {
                            CrawlErrorType::RobotsDisallowed
                        },
                    )
                } else {
                    match res.content {
                        None => failed_as(r, CrawlErrorType::FetchError),
                        Some(c) => r matches CrawlStage::Store { result, content } && result
                            == res && content@ == c@,
                    }
                },
            },
            (CrawlStage::Store { result, content }, CrawlEvent::Uploaded(u)) => match u {
                Some(Ok((id, c))) => match page_key_of(entry.url@, entry.domain@) {
                    Some((d, p)) => r matches CrawlStage::LookUp {
                        result: r2,
                        content: c2,
                        storage_id,
                        compression,
                        domain,
                        path,
                    } && r2 == result && c2@ == content@ && storage_id == id && compression == c
                        && domain@ == d && path@ == p,
                    None => failed_as(r, CrawlErrorType::DatabaseError),
                },
                _ => failed_as(r, CrawlErrorType::StorageError),
            },
            (
                CrawlStage::LookUp { result, content, storage_id, compression, .. },
                CrawlEvent::LookedUp(looked, now),
            ) => match looked {
                Err(_) => failed_as(r, CrawlErrorType::DatabaseError),
                Ok(prior) => {
                    &&& page_key_of(entry.url@, entry.domain@) is Some ==> r is Record
                    &&& r is Record || failed_as(r, CrawlErrorType::DatabaseError)
                    &&& r matches CrawlStage::Record { page, content: c2, directives } ==> {
                        &&& is_page_record(
                            page,
                            *entry,
                            result,
                            Some(storage_id),
                            compression,
                            prior,
                            now,
                        )
                        &&& c2@ == content@
                        &&& directives == directives_for(content@, result.x_robots_tag)
                    }
                },
            },
            (CrawlStage::Record { page, content, directives }, CrawlEvent::Upserted(u)) => match u {
                Err(_) => failed_as(r, CrawlErrorType::DatabaseError),
                Ok(()) => {
                    &&& directives.noindex ==> !(r is Index)
                    &&& directives.nofollow ==> !(r is Discover)
                    &&& !directives.noindex && search_configured ==> (r matches CrawlStage::Index {
                        doc,
                        content: c,
                        directives: d,
                    } && is_document_for(doc, *tenant_id, *entry, page, content@) && c@ == content@
                        && d == directives)
                    &&& (directives.noindex || !search_configured) ==> if directives.nofollow {
                        r is Done
                    } else {
                        offers_links_of(r, content@, entry.url@)
                    }
                },
            },
            (CrawlStage::Index { content, directives, .. }, CrawlEvent::Indexed(i)) => match i {
                Err(_) => failed_as(r, CrawlErrorType::SearchIndexError),
                Ok(()) => if directives.nofollow {
                    r is Done
                } else {
                    offers_links_of(r, content@, entry.url@)
                },
            },
            (CrawlStage::Failed(f), _) => r == CrawlStage::Failed(f),
            (CrawlStage::Done, _) => r is Done,
            (CrawlStage::Discover(l), _) => r == CrawlStage::Discover(l),
            _ => failed_as(r, CrawlErrorType::Unknown),
        },
{
    match (stage, event) {
        (CrawlStage::Fetch, CrawlEvent::Fetched(f)) => {
            match check_fetch(&f) {
                Err(fl) => CrawlStage::Failed(fl),
                Ok(content) => match f {
                    Ok(result) => CrawlStage::Store { result, content },
                    Err(_) => CrawlStage::Failed(
                        CrawlFailure {
                            kind: CrawlErrorType::FetchError,
                            message: String::from_str("No content retrieved"),
                        },
                    ),
                },
            }
        },
        (CrawlStage::Store { result, content }, CrawlEvent::Uploaded(u)) => {
            match check_upload(u) {
                Err(fl) => CrawlStage::Failed(fl),
                Ok((storage_id, compression)) => match page_key(entry) {
                    Ok((domain, path)) => CrawlStage::LookUp {
                        result,
                        content,
                        storage_id,
                        compression,
                        domain,
                        path,
                    },
                    Err(fl) => CrawlStage::Failed(fl),
                },
            }
        },
        (
            CrawlStage::LookUp { result, content, storage_id, compression, .. },
            CrawlEvent::LookedUp(looked, now),
        ) => {
            let prior = match looked {
                Ok(p) => p,
                Err(e) => {
                    return CrawlStage::Failed(
                        CrawlFailure {
                            kind: CrawlErrorType::DatabaseError,
                            message: String::from_str("Failed to read page: ").concat(e.as_str()),
                        },
                    );
                },
            };
            match create_crawled_page(entry, &result, Some(storage_id), compression, &prior, now) {
                Ok(page) => {
                    let tag = match &result.x_robots_tag {
                        Some(t) => Some(t.as_str()),
                        None => None,
                    };
                    let directives = get_robots_directives(content.as_str(), tag);
                    CrawlStage::Record { page, content, directives }
                },
                Err(fl) => CrawlStage::Failed(fl),
            }
        },
        (CrawlStage::Record { page, content, directives }, CrawlEvent::Upserted(u)) => {
            match u {
                Err(e) => CrawlStage::Failed(
                    CrawlFailure {
                        kind: CrawlErrorType::DatabaseError,
                        message: String::from_str("Failed to upsert page: ").concat(e.as_str()),
                    },
                ),
                Ok(()) => after_record(
                    entry,
                    tenant_id,
                    search_configured,
                    Some(page),
                    content,
                    directives,
                ),
            }
        },
        (CrawlStage::Index { content, directives, .. }, CrawlEvent::Indexed(i)) => {
            match i {
                Err(e) => CrawlStage::Failed(
                    CrawlFailure {
                        kind: CrawlErrorType::SearchIndexError,
                        message: String::from_str("Failed to index: ").concat(e.as_str()),
                    },
                ),
                Ok(()) => after_record(entry, tenant_id, search_configured, None, content, directives),
            }
        },
        (CrawlStage::Failed(f), _) => CrawlStage::Failed(f),
        (CrawlStage::Done, _) => CrawlStage::Done,
        (CrawlStage::Discover(l), _) => CrawlStage::Discover(l),
        _ => CrawlStage::Failed(
            CrawlFailure {
                kind: CrawlErrorType::Unknown,
                message: String::from_str("stage event out of order"),
            },
        ),
    }
}

} // verus!
