//! The per-tenant scheduler: one run of `process_next_entry` as a state
//! machine over the outcomes of its database calls, and the poll loop's
//! choice to sleep or go on.
use vstd::prelude::*;
use vstd::string::*;
use crate::model::CrawlQueueEntry;
use crate::modes::DeploymentMode;

verus! {

/// Where one run of `process_next_entry` stands; each step names the
/// outside work to do next.
#[derive(Debug)]
pub enum EntryStep {
    /// Read the `crawling_enabled` setting.
    ReadSetting,
    /// Fetch one entry from the queue.
    Poll,
    /// Delete this entry from the queue, which claims it.
    Lease(CrawlQueueEntry),
    /// Run the pipeline on this claimed entry.
    Process(CrawlQueueEntry),
    /// The run is over: `Ok(true)` when an entry was processed, `Ok(false)`
    /// when there was none or crawling is disabled.
    Finished(Result<bool, String>),
}

/// The outcome of the work a step named.
#[derive(Debug)]
pub enum EntryEvent {
    SettingRead(Result<bool, String>),
    Polled(Result<Option<CrawlQueueEntry>, String>),
    Deleted(Result<(), String>),
    /// The pipeline ran; its own failures were classified and logged.
    Processed,
}

pub open spec fn failed_with(r: EntryStep, prefix: Seq<char>, e: String) -> bool {
    r matches EntryStep::Finished(Err(m)) && m@ == prefix + e@
}

/// The next step of a run. Disabled crawling ends the run before the queue
/// is touched; the entry is processed only after it was deleted.
pub fn advance(step: EntryStep, event: EntryEvent) -> (r: EntryStep)
    ensures
        match (step, event) {
            (EntryStep::ReadSetting, EntryEvent::SettingRead(Ok(true))) => r is Poll,
            (EntryStep::ReadSetting, EntryEvent::SettingRead(Ok(false))) => r
                == EntryStep::Finished(Ok(false)),
            (EntryStep::ReadSetting, EntryEvent::SettingRead(Err(e))) => failed_with(
                r,
                "Failed to check crawling enabled: "@,
                e,
            ),
            (EntryStep::Poll, EntryEvent::Polled(Ok(None))) => r == EntryStep::Finished(Ok(false)),
            (EntryStep::Poll, EntryEvent::Polled(Ok(Some(e)))) => r == EntryStep::Lease(e),
            (EntryStep::Poll, EntryEvent::Polled(Err(e))) => failed_with(
                r,
                "Failed to get queue entry: "@,
                e,
            ),
            (EntryStep::Lease(e), EntryEvent::Deleted(Ok(()))) => r == EntryStep::Process(e),
            (EntryStep::Lease(_), EntryEvent::Deleted(Err(e))) => failed_with(
                r,
                "Failed to delete queue entry: "@,
                e,
            ),
            (EntryStep::Process(_), EntryEvent::Processed) => r == EntryStep::Finished(Ok(true)),
            (EntryStep::Finished(o), _) => r == EntryStep::Finished(o),
            _ => r matches EntryStep::Finished(Err(_)),
        },
{
    match (step, event) {
        (EntryStep::ReadSetting, EntryEvent::SettingRead(Ok(enabled))) => {
            if enabled {
                EntryStep::Poll
            } else {
                EntryStep::Finished(Ok(false))
            }
        },
        (EntryStep::ReadSetting, EntryEvent::SettingRead(Err(e))) => EntryStep::Finished(
            Err(String::from_str("Failed to check crawling enabled: ").concat(e.as_str())),
        ),
        (EntryStep::Poll, EntryEvent::Polled(Ok(found))) => match found {
            Some(e) => EntryStep::Lease(e),
            None => EntryStep::Finished(Ok(false)),
        },
        (EntryStep::Poll, EntryEvent::Polled(Err(e))) => EntryStep::Finished(
            Err(String::from_str("Failed to get queue entry: ").concat(e.as_str())),
        ),
        (EntryStep::Lease(e), EntryEvent::Deleted(Ok(()))) => EntryStep::Process(e),
        (EntryStep::Lease(_), EntryEvent::Deleted(Err(e))) => EntryStep::Finished(
            Err(String::from_str("Failed to delete queue entry: ").concat(e.as_str())),
        ),
        (EntryStep::Process(_), EntryEvent::Processed) => EntryStep::Finished(Ok(true)),
        (EntryStep::Finished(o), _) => EntryStep::Finished(o),
        _ => EntryStep::Finished(Err(String::from_str("event out of order"))),
    }
}

/// Whether the poll loop sleeps after a run: it goes on at once only after
/// processing an entry, so that a backlog drains; an empty queue, disabled
/// crawling and errors all wait one poll interval.
pub fn sleeps_after(outcome: &Result<bool, String>) -> (r: bool)
    ensures
        r == !(outcome matches Ok(true)),
{
    match outcome {
        Ok(true) => false,
        _ => true,
    }
}

/// The tenant keyspaces that get a scheduler at startup: the configured one
/// in single-tenant mode, the listed tenants in multi-tenant mode.
pub fn scheduler_keyspaces(mode: DeploymentMode, configured: &str, listed: Vec<String>) -> (r: Vec<
    String,
>)
    ensures
        mode == DeploymentMode::SingleTenant ==> r@.len() == 1 && r@[0]@ == configured@,
        mode == DeploymentMode::MultiTenant ==> r@ == listed@,
{
    match mode {
        DeploymentMode::SingleTenant => {
            let mut v: Vec<String> = Vec::new();
            v.push(String::from_str(configured));
            v
        },
        DeploymentMode::MultiTenant => listed,
    }
}

} // verus!
