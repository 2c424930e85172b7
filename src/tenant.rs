//! The keyspace-scoped view of a tenant's tables: qualified table names on a
//! shared pool, the crawling switch, counters that may be null, and the
//! page table under repeated recording.
use vstd::prelude::*;
use vstd::string::*;
use crate::model::{CrawlQueueEntry, CrawlResult, CrawledPage};
use crate::pipeline::{is_page_record, opt_str};
use crate::storage::CompressionType;
use crate::text::str_eq;

verus! {

/// The tenant a database client speaks for: every table it names is
/// qualified by this keyspace, so one connection pool serves all tenants.
#[derive(Debug)]
pub struct KeyspaceScope {
    pub keyspace: String,
}

impl KeyspaceScope {
    pub fn new(keyspace: &str) -> (r: Self)
        ensures
            r.keyspace@ == keyspace@,
    {
        KeyspaceScope { keyspace: String::from_str(keyspace) }
    }

    /// A scope for another keyspace, on the same pool.
    pub fn with_keyspace(&self, keyspace: &str) -> (r: Self)
        ensures
            r.keyspace@ == keyspace@,
    {
        KeyspaceScope { keyspace: String::from_str(keyspace) }
    }

    /// The fully qualified name of `table` in this keyspace.
    pub fn table(&self, table: &str) -> (r: String)
        ensures
            r@ == self.keyspace@ + "."@ + table@,
    {
        self.keyspace.clone().concat(".").concat(table)
    }

    /// A statement naming `table` of this keyspace between `before` and
    /// `after` (`"SELECT ... FROM "`, `"crawl_queue"`, `" LIMIT 1"`).
    pub fn statement(&self, before: &str, table: &str, after: &str) -> (r: String)
        ensures
            r@ == before@ + self.keyspace@ + "."@ + table@ + after@,
    {
        let t = self.table(table);
        let r = String::from_str(before).concat(t.as_str()).concat(after);
        proof {
            assert(r@ =~= before@ + self.keyspace@ + "."@ + table@ + after@);
        }
        r
    }
}

/// Two keyspaces never share a qualified table name: tenants are isolated.
pub proof fn lemma_keyspaces_isolated(a: Seq<char>, b: Seq<char>, table: Seq<char>)
    requires
        a != b,
    ensures
        a + "."@ + table != b + "."@ + table,
{
    if a + "."@ + table == b + "."@ + table {
        let x = a + "."@ + table;
        let k = "."@ + table;
        assert(a + "."@ + table =~= a + k);
        assert(b + "."@ + table =~= b + k);
        assert(a.len() == b.len());
        assert(a =~= x.subrange(0, a.len() as int));
        assert(b =~= x.subrange(0, b.len() as int));
    }
}

/// Key of the `crawling_enabled` setting.
pub const CRAWLING_ENABLED_KEY: &'static str = "crawling_enabled";

/// The crawling switch: the stored value when present (`"true"` enables),
/// else the environment's default.
pub fn crawling_enabled(stored: &Option<String>, default_enabled: bool) -> (r: bool)
    ensures
        r == match stored {
            Some(v) => v@ == "true"@,
            None => default_enabled,
        },
{
    match stored {
        Some(v) => str_eq(v.as_str(), "true"),
        None => default_enabled,
    }
}

/// The stored value for a switch position.
pub fn setting_value(enabled: bool) -> (r: &'static str)
    ensures
        r@ == (if enabled {
            "true"@
        } else {
            "false"@
        }),
{
    if enabled {
        "true"
    } else {
        "false"
    }
}

/// Writing a switch position and reading it back gives that position,
/// whatever the default.
pub proof fn lemma_setting_round_trip(enabled: bool, default_enabled: bool)
    ensures
        ((if enabled {
            "true"@
        } else {
            "false"@
        }) == "true"@) == enabled,
{
    reveal_strlit("true");
    reveal_strlit("false");
    assert("true"@.len() == 4 && "false"@.len() == 5);
}

/// The default of the switch when nothing is stored: on in development,
/// off in production.
pub fn default_crawling_enabled(environment: &Option<String>) -> (r: bool)
    ensures
        r == (environment matches Some(e) && e@ == "dev"@),
{
    match environment {
        Some(e) => str_eq(e.as_str(), "dev"),
        None => false,
    }
}

/// Sum of counter cells; an unread (null) counter counts as zero.
pub open spec fn counter_sum(cells: Seq<Option<i64>>) -> int
    decreases cells.len(),
{
    if cells.len() == 0 {
        0
    } else {
        counter_sum(cells.drop_last()) + match cells.last() {
            Some(v) => v as int,
            None => 0,
        }
    }
}

/// Total of the counter cells of one stats partition.
pub fn sum_counters(cells: &Vec<Option<i64>>) -> (r: i64)
    requires
        forall|k: int|
            0 <= k <= cells@.len() ==> i64::MIN <= #[trigger] counter_sum(cells@.take(k))
                <= i64::MAX,
    ensures
        r == counter_sum(cells@),
{
    let mut total: i64 = 0;
    let mut i: usize = 0;
    proof {
        assert(cells@.take(0).len() == 0);
    }
    while i < cells.len()
        invariant
            i <= cells.len(),
            total == counter_sum(cells@.take(i as int)),
            forall|k: int|
                0 <= k <= cells@.len() ==> i64::MIN <= #[trigger] counter_sum(cells@.take(k))
                    <= i64::MAX,
        decreases cells.len() - i,
    {
        proof {
            assert(cells@.take(i + 1).drop_last() =~= cells@.take(i as int));
            assert(cells@.take(i + 1).last() == cells@[i as int]);
            assert(i64::MIN <= counter_sum(cells@.take(i + 1)) <= i64::MAX);
        }
        let v = match cells[i] {
            Some(v) => v,
            None => 0,
        };
        total = total + v;
        i = i + 1;
    }
    proof {
        assert(cells@.take(i as int) =~= cells@);
    }
    total
}

/// The page table of a tenant, by (domain, path).
pub type PageTable = Map<(Seq<char>, Seq<char>), CrawledPage>;

/// The table after an upsert of `p`.
pub open spec fn upsert(t: PageTable, p: CrawledPage) -> PageTable {
    t.insert(p.key(), p)
}

/// The row stored under `key`, if any.
pub open spec fn stored(t: PageTable, key: (Seq<char>, Seq<char>)) -> Option<CrawledPage> {
    if t.contains_key(key) {
        Some(t[key])
    } else {
        None
    }
}

/// The table after upserting `pages` in order.
pub open spec fn replay(t: PageTable, pages: Seq<CrawledPage>) -> PageTable
    decreases pages.len(),
{
    if pages.len() == 0 {
        t
    } else {
        upsert(replay(t, pages.drop_last()), pages.last())
    }
}

/// Each row of `pages` counts one more crawl than the row stored before it
/// under its key (one when there was none), as the record stage builds it.
pub open spec fn counted_in_turn(t: PageTable, pages: Seq<CrawledPage>) -> bool {
    forall|i: int|
        0 <= i < pages.len() ==> #[trigger] pages[i].crawl_count == match stored(
            replay(t, pages.take(i)),
            pages[i].key(),
        ) {
            Some(o) => o.crawl_count + 1,
            None => 1,
        }
}

/// Successive successful crawls of one page, starting with none recorded,
/// leave exactly one row under its key, whose count is the number of crawls.
pub proof fn lemma_one_row_counting_crawls(
    t: PageTable,
    pages: Seq<CrawledPage>,
    key: (Seq<char>, Seq<char>),
)
    requires
        !t.contains_key(key),
        pages.len() > 0,
        forall|i: int| 0 <= i < pages.len() ==> #[trigger] pages[i].key() == key,
        counted_in_turn(t, pages),
    ensures
        replay(t, pages).dom() == t.dom().insert(key),
        replay(t, pages)[key].crawl_count == pages.len(),
    decreases pages.len(),
{
    let n = pages.len();
    let init = pages.drop_last();
    assert(pages.take(n - 1) =~= init);
    assert(pages[n - 1] == pages.last());
    if n == 1 {
        assert(replay(t, init) == t);
    } else {
        assert forall|i: int| 0 <= i < init.len() implies #[trigger] init[i].crawl_count
            == match stored(replay(t, init.take(i)), init[i].key()) {
            Some(o) => o.crawl_count + 1,
            None => 1,
        } by {
            assert(init.take(i) =~= pages.take(i));
            assert(init[i] == pages[i]);
        }
        assert forall|i: int| 0 <= i < init.len() implies #[trigger] init[i].key() == key by {
            assert(init[i] == pages[i]);
        }
        lemma_one_row_counting_crawls(t, init, key);
    }
    assert(replay(t, pages).dom() =~= t.dom().insert(key));
}

/// Recording the same fetch again over the first record changes only the
/// crawl count and the times of the second crawl; upserting one row twice
/// is the same as once.
pub proof fn lemma_recording_is_idempotent(
    first: CrawledPage,
    second: CrawledPage,
    entry: CrawlQueueEntry,
    result: CrawlResult,
    storage_id: Option<u128>,
    compression: CompressionType,
    prior: Option<CrawledPage>,
    now1: i64,
    now2: i64,
    t: PageTable,
)
    requires
        is_page_record(first, entry, result, storage_id, compression, prior, now1),
        is_page_record(second, entry, result, storage_id, compression, Some(first), now2),
    ensures
        second.key() == first.key(),
        second.url@ == first.url@,
        second.storage_id == first.storage_id,
        second.storage_compression == first.storage_compression,
        second.crawl_frequency_hours == first.crawl_frequency_hours,
        second.http_status == first.http_status,
        second.content_hash@ == first.content_hash@,
        second.content_length == first.content_length,
        second.robots_allowed == first.robots_allowed,
        opt_str(second.error_message) == opt_str(first.error_message),
        second.created_at == first.created_at,
        second.crawl_count == first.crawl_count + 1,
        upsert(upsert(t, first), first) == upsert(t, first),
        upsert(upsert(t, first), second).dom() == upsert(t, first).dom(),
{
    assert(upsert(upsert(t, first), first) =~= upsert(t, first));
    assert(upsert(upsert(t, first), second).dom() =~= upsert(t, first).dom());
}

} // verus!
