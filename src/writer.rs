//! The decisions of the single writer. The writer owns the store; it opens
//! and configures it, makes sure the table exists, opens one transaction,
//! drains the fan-in channel and commits once. The store work itself is done
//! by the caller: this session says which step comes next, and checks that
//! every batch that the plan announced has arrived before it allows the
//! commit, so that no value is dropped silently.

use vstd::prelude::*;

verus! {

/// Store settings for a one-shot bulk load: no journal, no synchronous
/// flush, a large cache, an exclusive lock and temporary data in memory.
pub const PRAGMAS: &'static str = "PRAGMA journal_mode = OFF;
PRAGMA synchronous = 0;
PRAGMA cache_size = 1000000;
PRAGMA locking_mode = EXCLUSIVE;
PRAGMA temp_store = MEMORY;";

/// The destination table, created only where it is absent, so that a second
/// run appends to it.
pub const CREATE_TABLE: &'static str = "create table if not exists phone (
    id       INTEGER PRIMARY KEY AUTOINCREMENT,
    value    CHAR(11))";

/// The one insert statement, prepared once and reused for every row.
pub const INSERT_ROW: &'static str = "INSERT INTO phone(value) VALUES (?)";

/// What the writer has to do next.
#[derive(Clone, Copy, Debug, PartialEq, Eq, Structural)]
pub enum Step {
    /// Open or create the store.
    Open,
    /// Apply the bulk-load settings.
    Configure,
    /// Create the table where it is absent.
    CreateTable,
    /// Begin the single transaction.
    Begin,
    /// Wait for the next batch, or for the end of the stream.
    Receive,
    /// Insert every value of the batch just received.
    Insert,
    /// Commit the transaction.
    Commit,
    /// The run is complete.
    Finished,
    /// The run failed; nothing is committed.
    Failed,
}

/// What happened when the writer did its current step.
#[derive(Clone, Copy, Debug, PartialEq, Eq, Structural)]
pub enum Event {
    /// The step succeeded.
    Done,
    /// A batch of this many values arrived.
    Batch(usize),
    /// Every sender is gone: no batch will arrive any more.
    Closed,
    /// The step failed.
    Error,
}

/// The writer's progress through one run.
pub struct WriterSession {
    /// The step that is due.
    pub pending: Step,
    /// Number of batches that the producers send: one each.
    pub expected_batches: usize,
    /// Number of values that the producers generate in all.
    pub expected_rows: usize,
    /// Batches received so far.
    pub batches: usize,
    /// Values received so far.
    pub rows: usize,
}

/// The step that follows a successful `s` during setup.
pub open spec fn setup_successor(s: Step) -> Step {
    match s {
        Step::Open => Step::Configure,
        Step::Configure => Step::CreateTable,
        Step::CreateTable => Step::Begin,
        Step::Begin => Step::Receive,
        Step::Insert => Step::Receive,
        Step::Commit => Step::Finished,
        _ => Step::Failed,
    }
}

impl WriterSession {
    /// The counters never pass what the plan announced.
    pub open spec fn wf(&self) -> bool {
        &&& self.batches <= self.expected_batches
        &&& self.rows <= self.expected_rows
        &&& (self.pending == Step::Commit || self.pending == Step::Finished) ==> (self.batches
            == self.expected_batches && self.rows == self.expected_rows)
    }

    /// A session for a run of `expected_batches` producers that generate
    /// `expected_rows` values in all. Its first step opens the store.
    pub fn new(expected_batches: usize, expected_rows: usize) -> (r: Self)
        ensures
            r.wf(),
            r.pending == Step::Open,
            r.expected_batches == expected_batches,
            r.expected_rows == expected_rows,
            r.batches == 0,
            r.rows == 0,
    {
        WriterSession { pending: Step::Open, expected_batches, expected_rows, batches: 0, rows: 0 }
    }

    /// Records what came of the pending step and decides the next one.
    ///
    /// Setup runs in order: open, configure, create the table, begin. Then
    /// each batch is received and inserted. A batch beyond the announced
    /// ones, or beyond the announced number of values, fails the run. The end
    /// of the stream leads to the commit only when every announced batch and
    /// value has arrived; otherwise the run fails. Any error fails the run,
    /// and a finished or failed run stays so.
    pub fn advance(&mut self, event: Event) -> (next: Step)
        requires
            old(self).wf(),
        ensures
            final(self).wf(),
            next == final(self).pending,
            final(self).expected_batches == old(self).expected_batches,
            final(self).expected_rows == old(self).expected_rows,
            final(self).pending == Step::Commit && old(self).pending != Step::Commit ==> (
            old(self).pending == Step::Receive && event == Event::Closed && old(self).batches
                == old(self).expected_batches && old(self).rows == old(self).expected_rows),
            match (old(self).pending, event) {
                (Step::Finished, _) => *final(self) == *old(self),
                (Step::Failed, _) => *final(self) == *old(self),
                (_, Event::Error) => final(self).pending == Step::Failed
                    && final(self).batches == old(self).batches
                    && final(self).rows == old(self).rows,
                (Step::Receive, Event::Batch(n)) =>
                    if old(self).batches < old(self).expected_batches
                        && old(self).rows + n <= old(self).expected_rows {
                        final(self).pending == Step::Insert
                            && final(self).batches == old(self).batches + 1
                            && final(self).rows == old(self).rows + n
                    } else {
                        final(self).pending == Step::Failed
                            && final(self).batches == old(self).batches
                            && final(self).rows == old(self).rows
                    },
                (Step::Receive, Event::Closed) => final(self).batches == old(self).batches
                    && final(self).rows == old(self).rows
                    && final(self).pending == (if old(self).batches == old(self).expected_batches
                        && old(self).rows == old(self).expected_rows {
                        Step::Commit
                    } else {
                        Step::Failed
                    }),
                (p, Event::Done) => final(self).pending == setup_successor(p)
                    && final(self).batches == old(self).batches
                    && final(self).rows == old(self).rows,
                (_, _) => final(self).pending == Step::Failed
                    && final(self).batches == old(self).batches
                    && final(self).rows == old(self).rows,
            },
    {
        let next = match (self.pending, event) {
            (Step::Finished, _) => Step::Finished,
            (Step::Failed, _) => Step::Failed,
            (_, Event::Error) => Step::Failed,
            (Step::Receive, Event::Batch(n)) => {
                if self.batches < self.expected_batches && n <= self.expected_rows - self.rows {
                    self.batches = self.batches + 1;
                    self.rows = self.rows + n;
                    Step::Insert
                } else {
                    Step::Failed
                }
            },
            (Step::Receive, Event::Closed) => {
                if self.batches == self.expected_batches && self.rows == self.expected_rows {
                    Step::Commit
                } else {
                    Step::Failed
                }
            },
            (Step::Open, Event::Done) => Step::Configure,
            (Step::Configure, Event::Done) => Step::CreateTable,
            (Step::CreateTable, Event::Done) => Step::Begin,
            (Step::Begin, Event::Done) => Step::Receive,
            (Step::Insert, Event::Done) => Step::Receive,
            (Step::Commit, Event::Done) => Step::Finished,
            (_, _) => Step::Failed,
        };
        self.pending = next;
        next
    }
}

} // verus!
