//! The archiver's decisions: a state machine over Waiting, Running and
//! Complete, driven by commands and by what the record stream delivers.
//!
//! The machine performs no I/O. Each step returns the next state together
//! with the one action that the event loop owning the machine must perform
//! (reply to a status query, begin an export, hand a record to the writer,
//! finish or drop the writer session). Where an action produces an outside
//! result (the total count, the writer's flush), the loop hands that result
//! back through `begun` or `finished`.
use crate::error::{share, SharedError};
use vstd::prelude::*;

verus! {

/// Number of records after which the export loop gives the scheduler a turn.
pub const YIELD_EVERY: u64 = 256;

/// A request sent to the archiver by one of its handles.
pub enum Command {
    Start,
    Reset,
    GetStatus,
}

/// What the archiver's event loop can observe next.
pub enum Event {
    /// A command from a handle.
    Command(Command),
    /// The record stream delivered a record.
    Record,
    /// The record stream delivered an error; it counts as its end.
    SourceFailed(SharedError),
    /// The record stream has no more records.
    Exhausted,
}

/// The state of the archiver; only its own event loop changes it.
pub enum ArchiverState {
    /// No export has run since the last reset, or ever.
    Waiting,
    /// An export is in progress. `total` is the count taken when it began.
    Running { processed: u64, total: u64 },
    /// The last export finished; `None` when it succeeded.
    Complete(Option<SharedError>),
}

/// What a status query is told.
pub enum ArchiverStatus {
    Waiting,
    Running { processed: u64, total: u64 },
    Complete(Result<(), SharedError>),
}

/// The one side effect that a step asks of the event loop.
pub enum Action {
    /// Nothing to do.
    Nothing,
    /// Answer the pending status query with this status.
    Reply(ArchiverStatus),
    /// Query the total count, open a fresh stream and a fresh writer
    /// session, and report the outcome through `ArchiverState::begun`.
    BeginExport,
    /// Drop the stream and the writer session; the partial file stays.
    Abandon,
    /// Hand the record just received to the writer session.
    Write,
    /// Drop the writer session without flushing it.
    CloseWriter,
    /// Flush and close the writer session, and report the outcome through
    /// `ArchiverState::finished`.
    FinishWriter,
}

/// The status that a query receives in state `s`.
pub open spec fn status_of(s: ArchiverState) -> ArchiverStatus {
    match s {
        ArchiverState::Waiting => ArchiverStatus::Waiting,
        ArchiverState::Running { processed, total } => ArchiverStatus::Running { processed, total },
        ArchiverState::Complete(None) => ArchiverStatus::Complete(Ok(())),
        ArchiverState::Complete(Some(e)) => ArchiverStatus::Complete(Err(e)),
    }
}

/// The transition table: the next state and the action for event `e` in state `s`.
pub open spec fn transition(s: ArchiverState, e: Event) -> (ArchiverState, Action) {
    match (s, e) {
        (ArchiverState::Running { .. }, Event::Command(Command::Start)) => (s, Action::Nothing),
        (_, Event::Command(Command::Start)) => (s, Action::BeginExport),
        (ArchiverState::Running { .. }, Event::Command(Command::Reset)) => (
            ArchiverState::Waiting,
            Action::Abandon,
        ),
        (_, Event::Command(Command::Reset)) => (ArchiverState::Waiting, Action::Nothing),
        (_, Event::Command(Command::GetStatus)) => (s, Action::Reply(status_of(s))),
        (ArchiverState::Running { processed, total }, Event::Record) => (
            ArchiverState::Running { processed: (processed + 1) as u64, total },
            Action::Write,
        ),
        (ArchiverState::Running { .. }, Event::SourceFailed(err)) => (
            ArchiverState::Complete(Some(err)),
            Action::CloseWriter,
        ),
        (ArchiverState::Running { .. }, Event::Exhausted) => (s, Action::FinishWriter),
        // Without an export in progress there is no stream to deliver anything.
        _ => (s, Action::Nothing),
    }
}

/// The state reached when a new export has begun with `counted` as the
/// outcome of querying the total and opening the writer session.
pub open spec fn begin_state(counted: Result<u64, SharedError>) -> ArchiverState {
    match counted {
        Ok(total) => ArchiverState::Running { processed: 0, total },
        Err(e) => ArchiverState::Complete(Some(e)),
    }
}

/// The state reached when the writer session has been finished with `flushed`.
pub open spec fn finish_state(flushed: Result<(), SharedError>) -> ArchiverState {
    match flushed {
        Ok(()) => ArchiverState::Complete(None),
        Err(e) => ArchiverState::Complete(Some(e)),
    }
}

/// Whether event `e` can be taken in state `s` without the record count
/// leaving the range of `u64`.
pub open spec fn can_take(s: ArchiverState, e: Event) -> bool {
    match (s, e) {
        (ArchiverState::Running { processed, .. }, Event::Record) => processed < u64::MAX,
        _ => true,
    }
}

/// The state after taking the events of `events` one after another from `s`.
pub open spec fn replay(s: ArchiverState, events: Seq<Event>) -> ArchiverState
    decreases events.len(),
{
    if events.len() == 0 {
        s
    } else {
        transition(replay(s, events.drop_last()), events.last()).0
    }
}

/// The number of records processed so far, or 0 where no export runs.
pub open spec fn processed_of(s: ArchiverState) -> nat {
    match s {
        ArchiverState::Running { processed, .. } => processed as nat,
        _ => 0,
    }
}

impl ArchiverState {
    /// The state the archiver starts in.
    pub fn new() -> (r: ArchiverState)
        ensures
            r == ArchiverState::Waiting,
    {
        ArchiverState::Waiting
    }

    /// The status that a query receives now.
    pub fn status(&self) -> (r: ArchiverStatus)
        ensures
            r == status_of(*self),
    {
        match self {
            ArchiverState::Waiting => ArchiverStatus::Waiting,
            ArchiverState::Running { processed, total } => ArchiverStatus::Running {
                processed: *processed,
                total: *total,
            },
            ArchiverState::Complete(None) => ArchiverStatus::Complete(Ok(())),
            ArchiverState::Complete(Some(e)) => ArchiverStatus::Complete(Err(share(e))),
        }
    }

    /// Takes one event: returns the next state and the action it asks for.
    pub fn step(self, event: Event) -> (r: (ArchiverState, Action))
        requires
            can_take(self, event),
        ensures
            r == transition(self, event),
    {
        match event {
            Event::Command(Command::Start) => match self {
                ArchiverState::Running { .. } => (self, Action::Nothing),
                _ => (self, Action::BeginExport),
            },
            Event::Command(Command::Reset) => match self {
                ArchiverState::Running { .. } => (ArchiverState::Waiting, Action::Abandon),
                _ => (ArchiverState::Waiting, Action::Nothing),
            },
            Event::Command(Command::GetStatus) => {
                let status = self.status();
                (self, Action::Reply(status))
            },
            Event::Record => match self {
                ArchiverState::Running { processed, total } => (
                    ArchiverState::Running { processed: processed + 1, total },
                    Action::Write,
                ),
                _ => (self, Action::Nothing),
            },
            Event::SourceFailed(err) => match self {
                ArchiverState::Running { .. } => (
                    ArchiverState::Complete(Some(err)),
                    Action::CloseWriter,
                ),
                _ => (self, Action::Nothing),
            },
            Event::Exhausted => match self {
                ArchiverState::Running { .. } => (self, Action::FinishWriter),
                _ => (self, Action::Nothing),
            },
        }
    }

    /// The state after `BeginExport`: running from zero against the counted
    /// total, or complete with the error that stopped the export from starting.
    pub fn begun(counted: Result<u64, SharedError>) -> (r: ArchiverState)
        ensures
            r == begin_state(counted),
    {
        match counted {
            Ok(total) => ArchiverState::Running { processed: 0, total },
            Err(e) => ArchiverState::Complete(Some(e)),
        }
    }

    /// The state after `FinishWriter`: complete, carrying the flush error if any.
    pub fn finished(flushed: Result<(), SharedError>) -> (r: ArchiverState)
        ensures
            r == finish_state(flushed),
    {
        match flushed {
            Ok(()) => ArchiverState::Complete(None),
            Err(e) => ArchiverState::Complete(Some(e)),
        }
    }

    /// Whether a step may take a record now without the count overflowing.
    pub fn can_take_record(&self) -> (r: bool)
        ensures
            r == can_take(*self, Event::Record),
    {
        match self {
            ArchiverState::Running { processed, .. } => *processed < u64::MAX,
            _ => true,
        }
    }
}

/// Whether the export loop should yield to the scheduler after `processed` records.
pub fn should_yield(processed: u64) -> (r: bool)
    ensures
        r == (processed % YIELD_EVERY == 0),
{
    processed % YIELD_EVERY == 0
}

/// While an export runs, a step never lowers the processed count nor changes
/// the total it is measured against.
pub proof fn lemma_step_keeps_progress(s: ArchiverState, e: Event)
    requires
        can_take(s, e),
        s is Running,
        transition(s, e).0 is Running,
    ensures
        processed_of(transition(s, e).0) >= processed_of(s),
        transition(s, e).0->total == s->total,
{
}

/// Along any run of events during which an export stays in progress, the
/// processed count that status queries report never goes down.
pub proof fn lemma_progress_monotone(s: ArchiverState, events: Seq<Event>, i: int, j: int)
    requires
        s is Running,
        0 <= i <= j <= events.len(),
        forall|k: int| 0 <= k <= events.len() ==> (#[trigger] replay(s, events.take(k))) is Running,
        forall|k: int|
            0 <= k < events.len() ==> can_take(#[trigger] replay(s, events.take(k)), events[k]),
    ensures
        processed_of(replay(s, events.take(i))) <= processed_of(replay(s, events.take(j))),
    decreases j - i,
{
    if i < j {
        lemma_progress_monotone(s, events, i, j - 1);
        let before = replay(s, events.take(j - 1));
        assert(events.take(j).drop_last() == events.take(j - 1));
        assert(events.take(j).last() == events[j - 1]);
        assert(replay(s, events.take(j)) == transition(before, events[j - 1]).0);
        assert(replay(s, events.take(j - 1)) is Running);
        assert(replay(s, events.take(j)) is Running);
        lemma_step_keeps_progress(before, events[j - 1]);
    }
}

/// A reset while an export runs is seen by the very next status query as
/// Waiting, however many records were left.
pub proof fn lemma_reset_then_status(s: ArchiverState)
    requires
        s is Running,
    ensures
        transition(s, Event::Command(Command::Reset)) == (ArchiverState::Waiting, Action::Abandon),
        transition(
            transition(s, Event::Command(Command::Reset)).0,
            Event::Command(Command::GetStatus),
        ) == (ArchiverState::Waiting, Action::Reply(ArchiverStatus::Waiting)),
{
}

/// Starting twice: the first start begins an export, and a second start
/// while it runs changes nothing and asks for no second writer session.
pub proof fn lemma_start_idempotent(s: ArchiverState, total: u64)
    requires
        !(s is Running),
    ensures
        transition(s, Event::Command(Command::Start)) == (s, Action::BeginExport),
        transition(begin_state(Ok(total)), Event::Command(Command::Start)) == (
            begin_state(Ok(total)),
            Action::Nothing,
        ),
        begin_state(Ok(total)) == (ArchiverState::Running { processed: 0, total }),
{
}

} // verus!
