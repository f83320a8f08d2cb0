//! The event log: an append-only, ordered list of timestamped entries.

use vstd::prelude::*;

verus! {

/// One logged event: when it was appended, in milliseconds since the
/// epoch, and its description.
#[derive(Clone, Debug, PartialEq, Eq)]
pub struct SemanticEvent {
    pub timestamp: u64,
    pub description: String,
}

/// The mathematical content of a [`SemanticEvent`].
pub struct SemanticEventView {
    pub timestamp: u64,
    pub description: Seq<char>,
}

impl View for SemanticEvent {
    type V = SemanticEventView;

    open spec fn view(&self) -> SemanticEventView {
        SemanticEventView { timestamp: self.timestamp, description: self.description@ }
    }
}

/// The contents of a list of entries.
pub open spec fn entry_views(entries: Seq<SemanticEvent>) -> Seq<SemanticEventView> {
    entries.map_values(|e: SemanticEvent| e@)
}

/// Whether no entry carries an earlier timestamp than one before it.
pub open spec fn chronological(entries: Seq<SemanticEventView>) -> bool {
    forall|i: int, j: int|
        0 <= i <= j < entries.len() ==> entries[i].timestamp <= entries[j].timestamp
}

/// The log of one recorder. Entries stay in the order of their appends.
#[derive(Clone, Debug, PartialEq, Eq)]
pub struct EventLog {
    entries: Vec<SemanticEvent>,
}

impl View for EventLog {
    type V = Seq<SemanticEventView>;

    closed spec fn view(&self) -> Seq<SemanticEventView> {
        entry_views(self.entries@)
    }
}

impl EventLog {
    /// An empty log.
    pub fn new() -> (log: EventLog)
        ensures
            log@ == Seq::<SemanticEventView>::empty(),
    {
        let log = EventLog { entries: Vec::new() };
        assert(log@ =~= Seq::<SemanticEventView>::empty());
        log
    }

    /// Appends one entry at the end of the log.
    pub fn append(&mut self, description: String, timestamp: u64)
        ensures
            final(self)@ == old(self)@.push(
                SemanticEventView { timestamp, description: description@ },
            ),
    {
        let ghost entry = SemanticEventView { timestamp, description: description@ };
        self.entries.push(SemanticEvent { timestamp, description });
        assert(self@ =~= old(self)@.push(entry));
    }

    /// The number of entries.
    pub fn len(&self) -> (n: usize)
        ensures
            n == self@.len(),
    {
        self.entries.len()
    }

    /// Whether the log holds no entry.
    pub fn is_empty(&self) -> (empty: bool)
        ensures
            empty == (self@.len() == 0),
    {
        self.entries.len() == 0
    }

    /// Takes every entry out of the log, in order, and leaves it empty.
    pub fn drain_and_clear(&mut self) -> (drained: Vec<SemanticEvent>)
        ensures
            entry_views(drained@) == old(self)@,
            final(self)@ == Seq::<SemanticEventView>::empty(),
    {
        let mut drained: Vec<SemanticEvent> = Vec::new();
        std::mem::swap(&mut self.entries, &mut drained);
        assert(self@ =~= Seq::<SemanticEventView>::empty());
        drained
    }
}

/// An append whose timestamp is not earlier than the last one keeps a
/// chronological log chronological.
pub proof fn append_keeps_chronological(log: Seq<SemanticEventView>, entry: SemanticEventView)
    requires
        chronological(log),
        log.len() > 0 ==> log.last().timestamp <= entry.timestamp,
    ensures
        chronological(log.push(entry)),
{
    let grown = log.push(entry);
    assert forall|i: int, j: int| 0 <= i <= j < grown.len() implies grown[i].timestamp
        <= grown[j].timestamp by {
        if j == log.len() && i < log.len() {
            assert(log[i].timestamp <= log.last().timestamp);
        }
    }
}

/// One operation on a log.
pub enum LogStep {
    Append { entry: SemanticEventView },
    Drain,
}

/// Where the entries stand after some operations: those that drains took
/// out, in the order they were taken, and those still in the log.
pub struct LogOutcome {
    pub drained: Seq<SemanticEventView>,
    pub remaining: Seq<SemanticEventView>,
}

/// The outcome of running `steps`, one after another, on an empty log.
pub open spec fn replay(steps: Seq<LogStep>) -> LogOutcome
    decreases steps.len(),
{
    if steps.len() == 0 {
        LogOutcome { drained: Seq::empty(), remaining: Seq::empty() }
    } else {
        let before = replay(steps.drop_last());
        match steps.last() {
            LogStep::Append { entry } => LogOutcome {
                drained: before.drained,
                remaining: before.remaining.push(entry),
            },
            LogStep::Drain => LogOutcome {
                drained: before.drained + before.remaining,
                remaining: Seq::empty(),
            },
        }
    }
}

/// The entries that `steps` append, in order.
pub open spec fn appended(steps: Seq<LogStep>) -> Seq<SemanticEventView>
    decreases steps.len(),
{
    if steps.len() == 0 {
        Seq::empty()
    } else {
        match steps.last() {
            LogStep::Append { entry } => appended(steps.drop_last()).push(entry),
            LogStep::Drain => appended(steps.drop_last()),
        }
    }
}

/// However appends and drains follow one another, no entry is lost and
/// none is repeated: what the drains took out, followed by what the log
/// still holds, is what was appended, once each and in order.
pub proof fn drains_neither_lose_nor_repeat(steps: Seq<LogStep>)
    ensures
        replay(steps).drained + replay(steps).remaining == appended(steps),
    decreases steps.len(),
{
    if steps.len() > 0 {
        drains_neither_lose_nor_repeat(steps.drop_last());
        let before = replay(steps.drop_last());
        match steps.last() {
            LogStep::Append { entry } => {
                assert(before.drained + before.remaining.push(entry) =~= (before.drained
                    + before.remaining).push(entry));
            },
            LogStep::Drain => {
                assert(before.drained + before.remaining + Seq::<SemanticEventView>::empty()
                    =~= before.drained + before.remaining);
            },
        }
    } else {
        assert(replay(steps).drained + replay(steps).remaining =~= appended(steps));
    }
}

} // verus!
