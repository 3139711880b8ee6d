//! The polling schedule as a state machine: the caller performs each command
//! and hands back what came of it as an event.
use vstd::prelude::*;
use crate::source::{FetchError, PriceSource};

verus! {

/// Seconds of idle time between the end of one cycle and the start of the next.
pub const CYCLE_DELAY_SECS: u64 = 10;

/// The number of sources polled in each cycle.
pub const SOURCE_COUNT: usize = 3;

/// The source polled at position `i` of a cycle.
pub open spec fn source_at(i: int) -> PriceSource {
    if i == 0 {
        PriceSource::Bitcoin
    } else if i == 1 {
        PriceSource::Ethereum
    } else {
        PriceSource::SP500
    }
}

/// The source polled at position `i` of a cycle.
pub fn source_of(i: usize) -> (r: PriceSource)
    requires
        i < SOURCE_COUNT,
    ensures
        r == source_at(i as int),
{
    if i == 0 {
        PriceSource::Bitcoin
    } else if i == 1 {
        PriceSource::Ethereum
    } else {
        PriceSource::SP500
    }
}

/// Where the schedule stands.
#[derive(Clone, Copy, PartialEq, Eq, Structural, Debug)]
pub enum Phase {
    /// Waiting for the fetch of the source at this position.
    Fetching(usize),
    /// Waiting for the persist of the source at this position.
    Persisting(usize),
    /// Waiting out the delay after a cycle.
    Sleeping,
    /// The cycle bound was reached.
    Finished,
}

/// The schedule's state: its phase, and how many cycles may still begin or
/// finish (`None`: unbounded).
#[derive(Clone, Copy, PartialEq, Eq, Structural, Debug)]
pub struct Scheduler {
    pub phase: Phase,
    pub remaining: Option<u64>,
}

/// What came of the last command.
pub enum Event {
    Fetched(Result<serde_json::Number, FetchError>),
    /// The persist succeeded, or failed with this error text.
    Persisted(Result<(), String>),
    Slept,
}

/// What the caller does next.
pub enum Command {
    Fetch(PriceSource),
    Persist(PriceSource, serde_json::Number),
    /// Sleep this many seconds.
    Sleep(u64),
    Stop,
}

/// What the caller logs for the last event.
pub enum Report {
    Quiet,
    /// The price of this source was fetched and persisted.
    Saved(PriceSource),
    /// A line for the error stream.
    Failed(String),
}

pub struct Action {
    pub report: Report,
    pub command: Command,
}

/// The log line of a failed fetch.
pub open spec fn fetch_failure_spec(s: PriceSource, e: FetchError) -> Seq<char> {
    "["@ + s.code()@ + "] fetch error: "@ + e.message_spec()
}

/// The log line of a failed persist.
pub open spec fn write_failure_spec(s: PriceSource, detail: Seq<char>) -> Seq<char> {
    "["@ + s.code()@ + "] failed to write CSV: "@ + detail
}

/// The log line of a failed fetch.
pub fn fetch_failure_line(s: PriceSource, e: &FetchError) -> (r: String)
    ensures
        r@ == fetch_failure_spec(s, *e),
{
    let mut l = String::from_str("[");
    l.append(s.name());
    l.append("] fetch error: ");
    let m = e.message();
    l.append(m.as_str());
    l
}

/// The log line of a failed persist.
pub fn write_failure_line(s: PriceSource, detail: &str) -> (r: String)
    ensures
        r@ == write_failure_spec(s, detail@),
{
    let mut l = String::from_str("[");
    l.append(s.name());
    l.append("] failed to write CSV: ");
    l.append(detail);
    l
}

impl Scheduler {
    pub open spec fn wf(self) -> bool {
        &&& (self.phase matches Phase::Fetching(i) ==> i < SOURCE_COUNT)
        &&& (self.phase matches Phase::Persisting(i) ==> i < SOURCE_COUNT)
        &&& (self.phase != Phase::Finished ==> self.remaining != Some(0u64))
    }

    /// Whether `ev` answers the command of the current phase.
    pub open spec fn expects(self, ev: Event) -> bool {
        match self.phase {
            Phase::Fetching(_) => ev is Fetched,
            Phase::Persisting(_) => ev is Persisted,
            Phase::Sleeping => ev is Slept,
            Phase::Finished => false,
        }
    }

    /// The state after the source at position `i` is done with.
    pub open spec fn after_source(self, i: usize) -> Scheduler {
        if i + 1 < SOURCE_COUNT {
            Scheduler { phase: Phase::Fetching((i + 1) as usize), remaining: self.remaining }
        } else {
            match self.remaining {
                None => Scheduler { phase: Phase::Sleeping, remaining: None },
                Some(k) => if k <= 1 {
                    Scheduler { phase: Phase::Finished, remaining: Some(0u64) }
                } else {
                    Scheduler { phase: Phase::Sleeping, remaining: Some((k - 1) as u64) }
                },
            }
        }
    }

    /// The state after `ev`.
    pub open spec fn next_state(self, ev: Event) -> Scheduler {
        match (self.phase, ev) {
            (Phase::Fetching(i), Event::Fetched(Ok(_))) => Scheduler { phase: Phase::Persisting(i), remaining: self.remaining },
            (Phase::Fetching(i), Event::Fetched(Err(_))) => self.after_source(i),
            (Phase::Persisting(i), Event::Persisted(_)) => self.after_source(i),
            (Phase::Sleeping, Event::Slept) => Scheduler { phase: Phase::Fetching(0), remaining: self.remaining },
            _ => self,
        }
    }

    /// The command that a phase calls for, other than a persist.
    pub open spec fn command_of(phase: Phase) -> Command {
        match phase {
            Phase::Fetching(i) => Command::Fetch(source_at(i as int)),
            Phase::Sleeping => Command::Sleep(CYCLE_DELAY_SECS),
            _ => Command::Stop,
        }
    }

    /// The command after `ev`: persist a fetched price, else what the next phase calls for.
    pub open spec fn next_command(self, ev: Event) -> Command {
        match (self.phase, ev) {
            (Phase::Fetching(i), Event::Fetched(Ok(p))) => Command::Persist(source_at(i as int), p),
            _ => Self::command_of(self.next_state(ev).phase),
        }
    }

    /// What is logged for `ev`.
    pub open spec fn reports(self, ev: Event, r: Report) -> bool {
        match (self.phase, ev) {
            (Phase::Fetching(i), Event::Fetched(Err(e))) =>
                r matches Report::Failed(l) && l@ == fetch_failure_spec(source_at(i as int), e),
            (Phase::Persisting(i), Event::Persisted(Err(d))) =>
                r matches Report::Failed(l) && l@ == write_failure_spec(source_at(i as int), d@),
            (Phase::Persisting(i), Event::Persisted(Ok(_))) => r == Report::Saved(source_at(i as int)),
            _ => r is Quiet,
        }
    }

    /// A schedule that runs `max_cycles` cycles (`None`: without end), with
    /// its first command.
    pub fn new(max_cycles: Option<u64>) -> (r: (Scheduler, Command))
        ensures
            r.0.wf(),
            r.0.remaining == max_cycles,
            max_cycles == Some(0u64) ==> r.0.phase == Phase::Finished,
            max_cycles != Some(0u64) ==> r.0.phase == Phase::Fetching(0),
            r.1 == Self::command_of(r.0.phase),
    {
        match max_cycles {
            Some(0) => (Scheduler { phase: Phase::Finished, remaining: max_cycles }, Command::Stop),
            _ => (Scheduler { phase: Phase::Fetching(0), remaining: max_cycles }, Command::Fetch(PriceSource::Bitcoin)),
        }
    }

    /// Whether `ev` answers the command of the current phase.
    pub fn accepts(&self, ev: &Event) -> (r: bool)
        ensures
            r == self.expects(*ev),
    {
        match self.phase {
            Phase::Fetching(_) => matches!(ev, Event::Fetched(_)),
            Phase::Persisting(_) => matches!(ev, Event::Persisted(_)),
            Phase::Sleeping => matches!(ev, Event::Slept),
            Phase::Finished => false,
        }
    }

    /// Takes what came of the last command, and says what to log and what to do next.
    pub fn step(&mut self, ev: Event) -> (r: Action)
        requires
            old(self).wf(),
            old(self).expects(ev),
        ensures
            final(self).wf(),
            *final(self) == old(self).next_state(ev),
            r.command == old(self).next_command(ev),
            old(self).reports(ev, r.report),
    {
        match self.phase {
            Phase::Fetching(i) => match ev {
                Event::Fetched(Ok(p)) => {
                    self.phase = Phase::Persisting(i);
                    Action { report: Report::Quiet, command: Command::Persist(source_of(i), p) }
                },
                Event::Fetched(Err(e)) => {
                    let line = fetch_failure_line(source_of(i), &e);
                    let command = self.finish_source(i);
                    Action { report: Report::Failed(line), command }
                },
                _ => Action { report: Report::Quiet, command: Command::Stop },
            },
            Phase::Persisting(i) => match ev {
                Event::Persisted(Ok(())) => {
                    let command = self.finish_source(i);
                    Action { report: Report::Saved(source_of(i)), command }
                },
                Event::Persisted(Err(d)) => {
                    let line = write_failure_line(source_of(i), d.as_str());
                    let command = self.finish_source(i);
                    Action { report: Report::Failed(line), command }
                },
                _ => Action { report: Report::Quiet, command: Command::Stop },
            },
            Phase::Sleeping => {
                self.phase = Phase::Fetching(0);
                Action { report: Report::Quiet, command: Command::Fetch(PriceSource::Bitcoin) }
            },
            Phase::Finished => Action { report: Report::Quiet, command: Command::Stop },
        }
    }

    fn finish_source(&mut self, i: usize) -> (r: Command)
        requires
            old(self).wf(),
            i < SOURCE_COUNT,
            old(self).phase != Phase::Finished,
        ensures
            *final(self) == old(self).after_source(i),
            final(self).wf(),
            r == Self::command_of(final(self).phase),
    {
        if i + 1 < SOURCE_COUNT {
            self.phase = Phase::Fetching(i + 1);
            Command::Fetch(source_of(i + 1))
        } else {
            match self.remaining {
                None => {
                    self.phase = Phase::Sleeping;
                    Command::Sleep(CYCLE_DELAY_SECS)
                },
                Some(k) => {
                    if k <= 1 {
                        self.phase = Phase::Finished;
                        self.remaining = Some(0);
                        Command::Stop
                    } else {
                        self.phase = Phase::Sleeping;
                        self.remaining = Some(k - 1);
                        Command::Sleep(CYCLE_DELAY_SECS)
                    }
                },
            }
        }
    }
}

/// Cycles are separated by a positive delay and visit the sources in a fixed
/// order: a cycle begins only out of the idle phase, whose command is a sleep
/// of a positive number of seconds, and within a cycle the source at position
/// `j` follows only the one at `j - 1`.
pub proof fn lemma_cycle_order(s: Scheduler, ev: Event)
    requires
        s.wf(),
        s.expects(ev),
    ensures
        s.next_state(ev).phase == Phase::Fetching(0) ==> s.phase == Phase::Sleeping
            && Scheduler::command_of(s.phase) == Command::Sleep(CYCLE_DELAY_SECS)
            && CYCLE_DELAY_SECS > 0,
        s.next_state(ev).phase is Fetching && s.next_state(ev).phase->Fetching_0 > 0 ==> ({
            let j = s.next_state(ev).phase->Fetching_0;
            s.phase == Phase::Fetching((j - 1) as usize) || s.phase == Phase::Persisting((j - 1) as usize)
        }),
        s.next_state(ev).wf(),
{
}

} // verus!
