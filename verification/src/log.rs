//! The events that a synchronisation reports, in the order in which they
//! happened.

use vstd::prelude::*;
use vstd::string::*;

verus! {

/// One reported event of the device `address`.
#[derive(Clone, Debug)]
pub enum SyncLogKind {
    /// A step was taken.
    Progress { address: u64, log: String },
    /// The run for this device was given up, and why.
    Error { address: u64, log: String },
}

/// What an event says.
pub ghost struct LogEntry {
    pub error: bool,
    pub address: u64,
    pub text: Seq<char>,
}

impl View for SyncLogKind {
    type V = LogEntry;

    open spec fn view(&self) -> LogEntry {
        match *self {
            SyncLogKind::Progress { address, log } => LogEntry {
                error: false,
                address,
                text: log@,
            },
            SyncLogKind::Error { address, log } => LogEntry { error: true, address, text: log@ },
        }
    }
}

/// What a sequence of events says, one entry for each.
pub open spec fn log_view(log: Seq<SyncLogKind>) -> Seq<LogEntry> {
    log.map_values(|e: SyncLogKind| e@)
}

/// The entry of a step taken for `address`.
pub open spec fn progress(address: u64, text: Seq<char>) -> LogEntry {
    LogEntry { error: false, address, text }
}

/// The entry of a run given up for `address`.
pub open spec fn failure(address: u64, text: Seq<char>) -> LogEntry {
    LogEntry { error: true, address, text }
}

/// Appends a `Progress` event with the text `msg`.
pub fn log_sync_progress(log: &mut Vec<SyncLogKind>, address: u64, msg: &str)
    ensures
        log_view(final(log)@) == log_view(old(log)@).push(progress(address, msg@)),
{
    let entry = SyncLogKind::Progress { address, log: String::from_str(msg) };
    log.push(entry);
    assert(log_view(log@) =~= log_view(old(log)@).push(progress(address, msg@)));
}

/// Appends an `Error` event with the text `msg`.
pub fn log_sync_error(log: &mut Vec<SyncLogKind>, address: u64, msg: &str)
    ensures
        log_view(final(log)@) == log_view(old(log)@).push(failure(address, msg@)),
{
    let entry = SyncLogKind::Error { address, log: String::from_str(msg) };
    log.push(entry);
    assert(log_view(log@) =~= log_view(old(log)@).push(failure(address, msg@)));
}

} // verus!
