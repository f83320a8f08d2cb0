//! The recording controller: the flag that gates sampling, together with
//! the log that a session fills.

use vstd::prelude::*;
use crate::export::{render_table, table_text};
use crate::log::{EventLog, SemanticEventView};

verus! {

/// The name of the file that a stopped session is exported to, in the
/// working directory. Each export overwrites it.
pub const EXPORT_FILE_NAME: &'static str = "event_log.csv";

/// The flag and the log of one recorder. A caller that shares it between
/// the control surface and the sampling loop keeps it behind one lock.
#[derive(Clone, Debug, PartialEq, Eq)]
pub struct Recorder {
    recording: bool,
    log: EventLog,
}

impl Recorder {
    /// Whether a session is running.
    pub closed spec fn recording(&self) -> bool {
        self.recording
    }

    /// The entries logged and not yet exported.
    pub closed spec fn entries(&self) -> Seq<SemanticEventView> {
        self.log@
    }

    /// A recorder at rest, with an empty log.
    pub fn new() -> (recorder: Recorder)
        ensures
            !recorder.recording(),
            recorder.entries() == Seq::<SemanticEventView>::empty(),
    {
        Recorder { recording: false, log: EventLog::new() }
    }

    /// Whether a session is running.
    pub fn is_recording(&self) -> (recording: bool)
        ensures
            recording == self.recording(),
    {
        self.recording
    }

    /// The number of entries logged and not yet exported.
    pub fn logged(&self) -> (n: usize)
        ensures
            n == self.entries().len(),
    {
        self.log.len()
    }

    /// Starts a session. On a running session this changes nothing.
    pub fn start(&mut self)
        ensures
            final(self).recording(),
            final(self).entries() == old(self).entries(),
    {
        self.recording = true;
    }

    /// Appends one entry to the log, whether or not a session is running.
    pub fn log_event(&mut self, event: String, timestamp: u64)
        ensures
            final(self).recording() == old(self).recording(),
            final(self).entries() == old(self).entries().push(
                SemanticEventView { timestamp, description: event@ },
            ),
    {
        self.log.append(event, timestamp);
    }

    /// Ends the session and hands out the table to export.
    ///
    /// The table holds every entry logged up to this call, and the log is
    /// empty afterwards. On a recorder at rest the table is that of
    /// whatever the log still holds, the header line alone if nothing.
    pub fn stop(&mut self) -> (table: String)
        ensures
            !final(self).recording(),
            final(self).entries() == Seq::<SemanticEventView>::empty(),
            table@ == table_text(old(self).entries()),
    {
        self.recording = false;
        let drained = self.log.drain_and_clear();
        render_table(&drained)
    }
}

} // verus!
