//! Append-only log of timestamped messages, tagged with their origin:
//! emitted by the sandboxed module itself, or by the host runtime at a
//! severity level.

use vstd::prelude::*;

verus! {

/// Severity of a host-emitted log entry.
#[derive(Clone, Copy, Debug, PartialEq, Eq, Structural)]
pub enum LogLevel {
    Trace,
    Debug,
    Info,
    Warning,
    Error,
}

/// Origin of a log entry: the sandboxed module, or the host runtime at a
/// severity level.
#[derive(Clone, Copy, Debug, PartialEq, Eq, Structural)]
pub enum LogKind {
    Runtime(LogLevel),
    AutoSplitter,
}

/// One timestamped log message.
pub struct LogEntry {
    /// Wall-clock time the entry was recorded, in nanoseconds since the Unix
    /// epoch. The clock is read when the entry is pushed; nothing further is
    /// promised about it.
    pub time_nanos: i128,
    pub message: String,
    pub kind: LogKind,
}

/// Relies on `time::OffsetDateTime::now_utc`: reads the wall clock and
/// returns it as nanoseconds since the Unix epoch. The result depends on the
/// clock, so nothing is promised about it.
#[verifier::external_body]
fn now_unix_nanos() -> i128 {
    time::OffsetDateTime::now_utc().unix_timestamp_nanos()
}

/// Holds whenever `new` is `old` with one entry appended whose message reads
/// `msg` and whose origin is `kind` (the timestamp is whatever the clock
/// gave).
pub open spec fn log_appended(old: Seq<LogEntry>, new: Seq<LogEntry>, msg: Seq<char>, kind: LogKind) -> bool {
    &&& new.len() == old.len() + 1
    &&& forall|i: int| 0 <= i < old.len() ==> new[i] == old[i]
    &&& new.last().message@ == msg
    &&& new.last().kind == kind
}

/// The append-only sequence of log entries shown to the user. It may be
/// cleared in bulk.
pub struct LogEntries {
    entries: Vec<LogEntry>,
}

impl View for LogEntries {
    type V = Seq<LogEntry>;

    closed spec fn view(&self) -> Seq<LogEntry> {
        self.entries@
    }
}

impl LogEntries {
    pub fn new() -> (r: Self)
        ensures
            r@ == Seq::<LogEntry>::empty(),
    {
        LogEntries { entries: Vec::new() }
    }

    /// Appends a host-emitted entry at the given severity.
    pub fn push_level(&mut self, message: String, level: LogLevel)
        ensures
            log_appended(old(self)@, final(self)@, message@, LogKind::Runtime(level)),
    {
        let time_nanos = now_unix_nanos();
        self.entries.push(LogEntry { time_nanos, message, kind: LogKind::Runtime(level) });
    }

    /// Appends an entry emitted by the sandboxed module.
    pub fn push(&mut self, message: String)
        ensures
            log_appended(old(self)@, final(self)@, message@, LogKind::AutoSplitter),
    {
        let time_nanos = now_unix_nanos();
        self.entries.push(LogEntry { time_nanos, message, kind: LogKind::AutoSplitter });
    }

    /// Removes every entry.
    pub fn clear(&mut self)
        ensures
            final(self)@ == Seq::<LogEntry>::empty(),
    {
        self.entries.clear();
    }

    pub fn len(&self) -> (r: usize)
        ensures
            r == self@.len(),
    {
        self.entries.len()
    }

    pub fn is_empty(&self) -> (r: bool)
        ensures
            r == (self@.len() == 0),
    {
        self.entries.is_empty()
    }

    /// Read access to one entry, for display.
    pub fn entry(&self, i: usize) -> (r: &LogEntry)
        requires
            i < self@.len(),
        ensures
            *r == self@[i as int],
    {
        &self.entries[i]
    }
}

} // verus!
