//! The index and discover stages: what robots directives allow, the search
//! document of a page, and the admission of discovered links to the queue.
use vstd::prelude::*;
use crate::digest::{document_id, document_key, md5_hex_of};
use crate::html::{
    anchors_of, extract_links, extract_title, links_of, plain_text_of, remove_html_tags,
    text_le, title_of, views,
};
use crate::model::{CrawlQueueEntry, CrawledPage, IndexedDocument};
use crate::robots::RobotsMetaDirectives;
use crate::text::{chars_of, string_of_range};
use crate::weburl::{parse_url, url_parts_of};
use vstd::utf8::encode_utf8;

verus! {

/// Characters of cleaned text kept in a document's excerpt.
pub const EXCERPT_CHARS: usize = 500;

/// Which of the last two stages run for a recorded page.
#[derive(Debug, Clone, Copy, PartialEq, Eq, Structural)]
pub struct PostCrawlPlan {
    /// Hand the page to the search index.
    pub index: bool,
    /// Extract and enqueue the page's links.
    pub discover: bool,
}

/// `noindex` skips indexing (as does a missing search adapter); `nofollow`
/// skips discovery.
pub fn post_crawl_plan(directives: RobotsMetaDirectives, search_configured: bool) -> (r:
    PostCrawlPlan)
    ensures
        r.index == (!directives.noindex && search_configured),
        r.discover == !directives.nofollow,
{
    PostCrawlPlan {
        index: !directives.noindex && search_configured,
        discover: !directives.nofollow,
    }
}

/// The links a page hands to discovery: none under `nofollow`, else its
/// followable links.
pub fn links_to_follow(directives: RobotsMetaDirectives, html: &str, base_url: &str) -> (r: Vec<
    String,
>)
    ensures
        directives.nofollow ==> r@.len() == 0,
        !directives.nofollow ==> views(r@).no_duplicates() && (forall|x: Seq<char>|
            views(r@).contains(x) <==> links_of(anchors_of(html@), base_url@).contains(x)) && (
        forall|i: int, j: int|
            0 <= i < j < r@.len() ==> #[trigger] text_le(views(r@)[i], views(r@)[j])),
{
    if directives.nofollow {
        Vec::new()
    } else {
        extract_links(html, base_url)
    }
}

/// The excerpt of cleaned text: its first `EXCERPT_CHARS` characters, or
/// all of it when it is shorter.
pub open spec fn excerpt_of(text: Seq<char>) -> Seq<char> {
    if text.len() > EXCERPT_CHARS {
        text.take(EXCERPT_CHARS as int)
    } else {
        text
    }
}

pub fn excerpt(text: &str) -> (r: String)
    ensures
        r@ == excerpt_of(text@),
{
    let c = chars_of(text);
    if c.len() > EXCERPT_CHARS {
        string_of_range(&c, 0, EXCERPT_CHARS)
    } else {
        String::from_str(text)
    }
}

/// Whole seconds in `ms` milliseconds, rounded toward zero.
pub open spec fn seconds_of(ms: i64) -> int {
    if ms >= 0 {
        ms / 1000
    } else {
        -((-ms) / 1000)
    }
}

/// `r` is the search document of `page`, recorded for `entry` with body
/// `content`.
pub open spec fn is_document_for(
    r: IndexedDocument,
    tenant_id: Option<String>,
    entry: CrawlQueueEntry,
    page: CrawledPage,
    content: Seq<char>,
) -> bool {
    &&& r.id@ == md5_hex_of(
        encode_utf8(
            document_key(
                match tenant_id {
                    Some(t) => Some(t@),
                    None => None,
                },
                entry.url@,
            ),
        ),
    )
    &&& match (r.tenant_id, tenant_id) {
        (Some(a), Some(b)) => a@ == b@,
        (None, None) => true,
        _ => false,
    }
    &&& r.url@ == entry.url@
    &&& r.domain@ == entry.domain@
    &&& match r.title {
        Some(t) => title_of(content) == Some(t@),
        None => title_of(content) is None,
    }
    &&& r.content@ == plain_text_of(content)
    &&& r.excerpt@ == excerpt_of(plain_text_of(content))
    &&& r.crawled_at == seconds_of(page.last_crawled_at)
    &&& r.http_status == page.http_status
}

/// The search document of a recorded page. Its id is the hash of the tenant
/// id followed by the URL in multi-tenant mode, else of the URL alone.
pub fn build_indexed_document(
    tenant_id: &Option<String>,
    entry: &CrawlQueueEntry,
    page: &CrawledPage,
    content: &str,
) -> (r: IndexedDocument)
    ensures
        is_document_for(r, *tenant_id, *entry, *page, content@),
{
    let title = extract_title(content);
    let clean = remove_html_tags(content);
    let ex = excerpt(clean.as_str());
    let id = document_id(tenant_id, entry.url.as_str());
    let tid = match tenant_id {
        Some(t) => Some(t.clone()),
        None => None,
    };
    IndexedDocument {
        id,
        tenant_id: tid,
        url: entry.url.clone(),
        domain: entry.domain.clone(),
        title,
        content: clean,
        excerpt: ex,
        crawled_at: page.last_crawled_at / 1000,
        http_status: page.http_status,
    }
}

/// The (host, path) of a discovered link: `None` when it does not parse or
/// its host is missing or empty.
pub open spec fn link_target_of(link: Seq<char>) -> Option<(Seq<char>, Seq<char>)> {
    match url_parts_of(link) {
        Some((Some(h), p)) => if h.len() > 0 {
            Some((h, p))
        } else {
            None
        },
        _ => None,
    }
}

pub fn link_target(link: &str) -> (r: Option<(String, String)>)
    ensures
        match r {
            Some((h, p)) => link_target_of(link@) == Some((h@, p@)),
            None => link_target_of(link@) is None,
        },
{
    match parse_url(link) {
        Ok(parts) => match parts.host {
            Some(h) => if h.as_str().is_empty() {
                None
            } else {
                Some((h, parts.path))
            },
            None => None,
        },
        Err(_) => None,
    }
}

/// Admission of a discovered link whose host is `host`: it is queued only
/// when the host is on the allow-list and no page is recorded under its
/// (host, path) yet; it inherits the parent's priority and is due now.
pub fn admit_link(
    parent: &CrawlQueueEntry,
    link: &str,
    host: &str,
    host_allowed: bool,
    already_crawled: bool,
    now_ms: i64,
) -> (r: Option<CrawlQueueEntry>)
    ensures
        r is Some <==> (host_allowed && !already_crawled),
        r matches Some(e) ==> {
            &&& e.priority == parent.priority
            &&& e.scheduled_at == now_ms
            &&& e.created_at == now_ms
            &&& e.url@ == link@
            &&& e.domain@ == host@
            &&& e.last_attempt_at is None
            &&& e.attempt_count == 0
        },
{
    if !host_allowed || already_crawled {
        return None;
    }
    Some(
        CrawlQueueEntry {
            priority: parent.priority,
            scheduled_at: now_ms,
            url: String::from_str(link),
            domain: String::from_str(host),
            last_attempt_at: None,
            attempt_count: 0,
            created_at: now_ms,
        },
    )
}

} // verus!
