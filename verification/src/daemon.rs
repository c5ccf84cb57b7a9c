//! The daemon supervisor: starting, finding and stopping the one background
//! process of a tracked directory, through its PID file.
//!
//! The supervisor touches neither files nor processes. It is a machine that
//! names the next thing to do and takes what came of it: the caller performs
//! each [`Action`] and hands back the matching [`Event`].

pub mod flush;
pub mod host;
pub mod pidfile;
pub mod snapshot;

use crate::daemon::pidfile::{decimal, format_pid, lemma_pid_round_trip, pid_of};
pub use crate::daemon::pidfile::read_pid;
pub use crate::daemon::flush::run_daemon;
use vstd::prelude::*;

verus! {

/// What the supervisor is asked to do.
#[derive(Clone, Copy, Debug, PartialEq, Eq, Structural)]
pub enum Command {
    Start,
    Stop,
    Status,
}

/// Why a command failed.
#[derive(Clone, Copy, Debug, PartialEq, Eq, Structural)]
pub enum DaemonError {
    /// The daemon process could not be created.
    SpawnFailed,
    /// The PID file or the log file could not be written.
    IoError,
    /// The running process could not be asked to terminate.
    KillFailed,
}

/// Why no daemon process came to run.
#[derive(Clone, Copy, Debug, PartialEq, Eq, Structural)]
pub enum SpawnFailure {
    /// The log file that takes the daemon's output could not be created.
    LogFile,
    /// The process could not be created.
    Process,
}

/// How a command ended.
#[derive(Clone, Copy, Debug, PartialEq, Eq, Structural)]
pub enum Report {
    /// `start`: the recorded process is alive; nothing was spawned.
    AlreadyRunning(u32),
    /// `start`: a daemon was spawned and recorded.
    Started(u32),
    /// `stop`, `status`: no PID file records a process.
    NotRunning,
    /// `stop`: the recorded process was dead; its PID file was removed.
    StaleRemoved,
    /// `stop`: the recorded process was asked to terminate.
    Stopped(u32),
    /// `status`: the recorded process is alive.
    Running(u32),
    /// `status`: the recorded process is dead.
    Stale,
    /// The command failed.
    Failed(DaemonError),
}

/// What the supervisor wants done next.
#[derive(Debug, PartialEq, Eq)]
pub enum Action {
    /// Read the PID file.
    ReadPidFile,
    /// Ask whether this process is alive.
    Probe(u32),
    /// Remove the PID file.
    RemovePidFile,
    /// Spawn the daemon, detached, its output going to the log file.
    Spawn,
    /// Write these contents to the PID file.
    WritePidFile(String),
    /// Ask this process to terminate.
    Terminate(u32),
    /// Nothing more: the command has ended.
    Finish(Report),
}

/// The mathematical value of an [`Action`].
pub enum ActionView {
    ReadPidFile,
    Probe(u32),
    RemovePidFile,
    Spawn,
    WritePidFile(Seq<char>),
    Terminate(u32),
    Finish(Report),
}

impl View for Action {
    type V = ActionView;

    open spec fn view(&self) -> ActionView {
        match self {
            Action::ReadPidFile => ActionView::ReadPidFile,
            Action::Probe(pid) => ActionView::Probe(*pid),
            Action::RemovePidFile => ActionView::RemovePidFile,
            Action::Spawn => ActionView::Spawn,
            Action::WritePidFile(contents) => ActionView::WritePidFile(contents@),
            Action::Terminate(pid) => ActionView::Terminate(*pid),
            Action::Finish(report) => ActionView::Finish(*report),
        }
    }
}

impl ActionView {
    /// Whether the action changes the PID file or a process.
    pub open spec fn mutates(self) -> bool {
        self is RemovePidFile || self is Spawn || self is WritePidFile || self is Terminate
    }
}

/// What came of an action.
#[derive(Debug, PartialEq, Eq)]
pub enum Event {
    /// The contents of the PID file, or `None` if it could not be read.
    PidFile(Option<String>),
    /// The answer of the liveness probe, or `None` if none could be had.
    Probed(Option<bool>),
    /// The PID file was removed, or could not be.
    Removed,
    /// The id of the spawned process.
    Spawned(Result<u32, SpawnFailure>),
    /// Whether the PID file was written.
    Written(bool),
    /// Whether the termination request was accepted, or `None` if it could
    /// not be made.
    Terminated(Option<bool>),
}

/// The mathematical value of an [`Event`].
pub enum EventView {
    PidFile(Option<Seq<char>>),
    Probed(Option<bool>),
    Removed,
    Spawned(Result<u32, SpawnFailure>),
    Written(bool),
    Terminated(Option<bool>),
}

impl View for Event {
    type V = EventView;

    open spec fn view(&self) -> EventView {
        match self {
            Event::PidFile(contents) => EventView::PidFile(contents.deep_view()),
            Event::Probed(answer) => EventView::Probed(*answer),
            Event::Removed => EventView::Removed,
            Event::Spawned(outcome) => EventView::Spawned(*outcome),
            Event::Written(done) => EventView::Written(*done),
            Event::Terminated(answer) => EventView::Terminated(*answer),
        }
    }
}

/// Where a command stands: each state waits for what came of one action.
#[derive(Clone, Copy, Debug, PartialEq, Eq, Structural)]
pub enum Supervisor {
    /// Waiting for the contents of the PID file.
    ReadingPid(Command),
    /// Waiting to learn whether the recorded process is alive.
    Probing(Command, u32),
    /// `start`: waiting for the stale PID file to go, before spawning.
    ReplacingStale,
    /// `stop`: waiting for the stale PID file to go.
    RemovingStale,
    /// `start`: waiting for the daemon to be spawned.
    Spawning,
    /// `start`: waiting for the PID file to be written.
    Recording(u32),
    /// `stop`: waiting for the termination request to be made.
    Terminating(u32),
    /// `stop`: waiting for the PID file of the terminated process to go.
    Forgetting(u32),
    /// The command has ended.
    Done(Report),
}

/// The process id that the PID file records: none if the file could not be
/// read or does not hold a process id.
pub open spec fn recorded_pid(contents: Option<Seq<char>>) -> Option<u32> {
    match contents {
        Some(text) => pid_of(text),
        None => None,
    }
}

/// A process counts as running only on a positive answer of the probe.
pub open spec fn running(answer: Option<bool>) -> bool {
    answer == Some(true)
}

/// A termination request counts as made only when it was accepted.
pub open spec fn terminated(answer: Option<bool>) -> bool {
    answer == Some(true)
}

/// The error that a failure to spawn is reported as.
pub open spec fn spawn_error(failure: SpawnFailure) -> DaemonError {
    match failure {
        SpawnFailure::LogFile => DaemonError::IoError,
        SpawnFailure::Process => DaemonError::SpawnFailed,
    }
}

impl Supervisor {
    /// The action whose outcome this state waits for.
    pub open spec fn pending(self) -> ActionView {
        match self {
            Supervisor::ReadingPid(_) => ActionView::ReadPidFile,
            Supervisor::Probing(_, pid) => ActionView::Probe(pid),
            Supervisor::ReplacingStale => ActionView::RemovePidFile,
            Supervisor::RemovingStale => ActionView::RemovePidFile,
            Supervisor::Spawning => ActionView::Spawn,
            Supervisor::Recording(pid) => ActionView::WritePidFile(decimal(pid as nat)),
            Supervisor::Terminating(pid) => ActionView::Terminate(pid),
            Supervisor::Forgetting(_) => ActionView::RemovePidFile,
            Supervisor::Done(report) => ActionView::Finish(report),
        }
    }

    /// The state after `event`. An event that does not answer the pending
    /// action changes nothing.
    pub open spec fn advance(self, event: EventView) -> Supervisor {
        match (self, event) {
            (Supervisor::ReadingPid(command), EventView::PidFile(contents)) => match recorded_pid(
                contents,
            ) {
                Some(pid) => Supervisor::Probing(command, pid),
                None => match command {
                    Command::Start => Supervisor::Spawning,
                    Command::Stop => Supervisor::Done(Report::NotRunning),
                    Command::Status => Supervisor::Done(Report::NotRunning),
                },
            },
            (Supervisor::Probing(command, pid), EventView::Probed(answer)) => match command {
                Command::Start => if running(answer) {
                    Supervisor::Done(Report::AlreadyRunning(pid))
                } else {
                    Supervisor::ReplacingStale
                },
                Command::Stop => if running(answer) {
                    Supervisor::Terminating(pid)
                } else {
                    Supervisor::RemovingStale
                },
                Command::Status => if running(answer) {
                    Supervisor::Done(Report::Running(pid))
                } else {
                    Supervisor::Done(Report::Stale)
                },
            },
            (Supervisor::ReplacingStale, EventView::Removed) => Supervisor::Spawning,
            (Supervisor::RemovingStale, EventView::Removed) => Supervisor::Done(
                Report::StaleRemoved,
            ),
            (Supervisor::Spawning, EventView::Spawned(outcome)) => match outcome {
                Ok(pid) => Supervisor::Recording(pid),
                Err(failure) => Supervisor::Done(Report::Failed(spawn_error(failure))),
            },
            (Supervisor::Recording(pid), EventView::Written(done)) => if done {
                Supervisor::Done(Report::Started(pid))
            } else {
                Supervisor::Done(Report::Failed(DaemonError::IoError))
            },
            (Supervisor::Terminating(pid), EventView::Terminated(answer)) => if terminated(answer) {
                Supervisor::Forgetting(pid)
            } else {
                Supervisor::Done(Report::Failed(DaemonError::KillFailed))
            },
            (Supervisor::Forgetting(pid), EventView::Removed) => Supervisor::Done(
                Report::Stopped(pid),
            ),
            _ => self,
        }
    }

    /// The state after a sequence of events, taken in order.
    pub open spec fn advance_all(self, events: Seq<EventView>) -> Supervisor
        decreases events.len(),
    {
        if events.len() == 0 {
            self
        } else {
            self.advance_all(events.drop_last()).advance(events.last())
        }
    }

    /// Names the action whose outcome this state waits for.
    pub fn next_action(&self) -> (action: Action)
        ensures
            action@ == self.pending(),
    {
        match self {
            Supervisor::ReadingPid(_) => Action::ReadPidFile,
            Supervisor::Probing(_, pid) => Action::Probe(*pid),
            Supervisor::ReplacingStale => Action::RemovePidFile,
            Supervisor::RemovingStale => Action::RemovePidFile,
            Supervisor::Spawning => Action::Spawn,
            Supervisor::Recording(pid) => Action::WritePidFile(format_pid(*pid)),
            Supervisor::Terminating(pid) => Action::Terminate(*pid),
            Supervisor::Forgetting(_) => Action::RemovePidFile,
            Supervisor::Done(report) => Action::Finish(*report),
        }
    }

    /// Takes what came of the pending action and names the next one.
    pub fn step(self, event: &Event) -> (next: (Supervisor, Action))
        ensures
            next.0 == self.advance(event@),
            next.1@ == next.0.pending(),
    {
        let state = match (self, event) {
            (Supervisor::ReadingPid(command), Event::PidFile(contents)) => {
                let recorded = match contents {
                    Some(text) => read_pid(text.as_str()),
                    None => None,
                };
                match recorded {
                    Some(pid) => Supervisor::Probing(command, pid),
                    None => match command {
                        Command::Start => Supervisor::Spawning,
                        Command::Stop => Supervisor::Done(Report::NotRunning),
                        Command::Status => Supervisor::Done(Report::NotRunning),
                    },
                }
            },
            (Supervisor::Probing(command, pid), Event::Probed(answer)) => {
                let alive = is_process_running(*answer);
                match command {
                    Command::Start => if alive {
                        Supervisor::Done(Report::AlreadyRunning(pid))
                    } else {
                        Supervisor::ReplacingStale
                    },
                    Command::Stop => if alive {
                        Supervisor::Terminating(pid)
                    } else {
                        Supervisor::RemovingStale
                    },
                    Command::Status => if alive {
                        Supervisor::Done(Report::Running(pid))
                    } else {
                        Supervisor::Done(Report::Stale)
                    },
                }
            },
            (Supervisor::ReplacingStale, Event::Removed) => Supervisor::Spawning,
            (Supervisor::RemovingStale, Event::Removed) => Supervisor::Done(Report::StaleRemoved),
            (Supervisor::Spawning, Event::Spawned(outcome)) => match outcome {
                Ok(pid) => Supervisor::Recording(*pid),
                Err(SpawnFailure::LogFile) => Supervisor::Done(
                    Report::Failed(DaemonError::IoError),
                ),
                Err(SpawnFailure::Process) => Supervisor::Done(
                    Report::Failed(DaemonError::SpawnFailed),
                ),
            },
            (Supervisor::Recording(pid), Event::Written(done)) => if *done {
                Supervisor::Done(Report::Started(pid))
            } else {
                Supervisor::Done(Report::Failed(DaemonError::IoError))
            },
            (Supervisor::Terminating(pid), Event::Terminated(answer)) => match kill_process(
                *answer,
            ) {
                Ok(()) => Supervisor::Forgetting(pid),
                Err(e) => Supervisor::Done(Report::Failed(e)),
            },
            (Supervisor::Forgetting(pid), Event::Removed) => Supervisor::Done(Report::Stopped(pid)),
            _ => self,
        };
        let action = state.next_action();
        (state, action)
    }
}

/// Begins `start`: the daemon is spawned unless the PID file records a
/// process that is alive.
pub fn start() -> (begun: (Supervisor, Action))
    ensures
        begun.0 == Supervisor::ReadingPid(Command::Start),
        begun.1@ == ActionView::ReadPidFile,
{
    (Supervisor::ReadingPid(Command::Start), Action::ReadPidFile)
}

/// Begins `stop`: the recorded process is asked to terminate, and the PID
/// file goes unless that request fails.
pub fn stop() -> (begun: (Supervisor, Action))
    ensures
        begun.0 == Supervisor::ReadingPid(Command::Stop),
        begun.1@ == ActionView::ReadPidFile,
{
    (Supervisor::ReadingPid(Command::Stop), Action::ReadPidFile)
}

/// Begins `status`: tells whether the daemon is not running, running or
/// stale, and changes nothing.
pub fn status() -> (begun: (Supervisor, Action))
    ensures
        begun.0 == Supervisor::ReadingPid(Command::Status),
        begun.1@ == ActionView::ReadPidFile,
{
    (Supervisor::ReadingPid(Command::Status), Action::ReadPidFile)
}

/// Reads a liveness probe: only a positive answer means that the process is
/// running; a negative answer, or none, means that it is not.
pub fn is_process_running(answer: Option<bool>) -> (alive: bool)
    ensures
        alive == running(answer),
{
    match answer {
        Some(alive) => alive,
        None => false,
    }
}

/// Reads the outcome of a termination request: it fails with `KillFailed`
/// unless the request was accepted.
pub fn kill_process(answer: Option<bool>) -> (outcome: Result<(), DaemonError>)
    ensures
        terminated(answer) ==> outcome is Ok,
        !terminated(answer) ==> outcome == Err::<(), DaemonError>(DaemonError::KillFailed),
{
    match answer {
        Some(true) => Ok(()),
        _ => Err(DaemonError::KillFailed),
    }
}

impl Supervisor {
    /// Whether this state belongs to a `status` command.
    pub open spec fn serves_status(self) -> bool {
        match self {
            Supervisor::ReadingPid(command) => command == Command::Status,
            Supervisor::Probing(command, _) => command == Command::Status,
            Supervisor::Done(report) => report is NotRunning || report is Running
                || report is Stale,
            _ => false,
        }
    }
}

/// `status` changes nothing: whatever events come back, and in whatever
/// order, no action that it names touches the PID file or a process.
pub proof fn lemma_status_never_mutates(events: Seq<EventView>)
    ensures
        Supervisor::ReadingPid(Command::Status).advance_all(events).serves_status(),
        !Supervisor::ReadingPid(Command::Status).advance_all(events).pending().mutates(),
    decreases events.len(),
{
    if events.len() > 0 {
        lemma_status_never_mutates(events.drop_last());
    }
}

/// `status` tells the three cases apart: no recorded process, a recorded
/// process that is alive, and one that is dead.
pub proof fn lemma_status_reports(contents: Option<Seq<char>>, answer: Option<bool>)
    ensures
        ({
            let read = Supervisor::ReadingPid(Command::Status).advance(
                EventView::PidFile(contents),
            );
            match recorded_pid(contents) {
                None => read == Supervisor::Done(Report::NotRunning),
                Some(pid) => {
                    &&& read.pending() == ActionView::Probe(pid)
                    &&& read.advance(EventView::Probed(answer)) == Supervisor::Done(
                        if running(answer) {
                            Report::Running(pid)
                        } else {
                            Report::Stale
                        },
                    )
                },
            }
        }),
{
}

/// `start` where no PID file records a process spawns the daemon, writes a
/// PID file that records the spawned process, and reports it as started.
pub proof fn lemma_start_spawns_and_records(contents: Option<Seq<char>>, child: u32)
    requires
        recorded_pid(contents) is None,
    ensures
        ({
            let read = Supervisor::ReadingPid(Command::Start).advance(EventView::PidFile(contents));
            let spawned = read.advance(EventView::Spawned(Ok(child)));
            let written = spawned.advance(EventView::Written(true));
            &&& read.pending() == ActionView::Spawn
            &&& spawned.pending() matches ActionView::WritePidFile(text)
            &&& recorded_pid(Some(text)) == Some(child)
            &&& written == Supervisor::Done(Report::Started(child))
        }),
{
    lemma_pid_round_trip(child);
}

/// `start` while the recorded process is alive reports it as running
/// already, and names no action but the reading of the PID file and the
/// probe: nothing is spawned, written or removed.
pub proof fn lemma_start_while_running(contents: Option<Seq<char>>, pid: u32)
    requires
        recorded_pid(contents) == Some(pid),
    ensures
        ({
            let begun = Supervisor::ReadingPid(Command::Start);
            let read = begun.advance(EventView::PidFile(contents));
            let probed = read.advance(EventView::Probed(Some(true)));
            &&& begun.pending() == ActionView::ReadPidFile
            &&& read.pending() == ActionView::Probe(pid)
            &&& probed == Supervisor::Done(Report::AlreadyRunning(pid))
            &&& probed.pending() == ActionView::Finish(Report::AlreadyRunning(pid))
        }),
{
}

/// `start` over a stale PID file removes it and goes on to spawn.
pub proof fn lemma_start_replaces_stale(contents: Option<Seq<char>>, pid: u32, answer: Option<bool>)
    requires
        recorded_pid(contents) == Some(pid),
        !running(answer),
    ensures
        ({
            let read = Supervisor::ReadingPid(Command::Start).advance(EventView::PidFile(contents));
            let probed = read.advance(EventView::Probed(answer));
            &&& probed.pending() == ActionView::RemovePidFile
            &&& probed.advance(EventView::Removed) == Supervisor::Spawning
        }),
{
}

/// `start` fails with `SpawnFailed` when the process cannot be created, and
/// with `IoError` when the log file or the PID file cannot be written.
pub proof fn lemma_start_failures(child: u32)
    ensures
        Supervisor::Spawning.advance(EventView::Spawned(Err(SpawnFailure::Process)))
            == Supervisor::Done(Report::Failed(DaemonError::SpawnFailed)),
        Supervisor::Spawning.advance(EventView::Spawned(Err(SpawnFailure::LogFile)))
            == Supervisor::Done(Report::Failed(DaemonError::IoError)),
        Supervisor::Recording(child).advance(EventView::Written(false)) == Supervisor::Done(
            Report::Failed(DaemonError::IoError),
        ),
{
}

/// `stop` where no PID file records a process reports that nothing runs,
/// without another action.
pub proof fn lemma_stop_without_pid_file(contents: Option<Seq<char>>)
    requires
        recorded_pid(contents) is None,
    ensures
        Supervisor::ReadingPid(Command::Stop).advance(EventView::PidFile(contents))
            == Supervisor::Done(Report::NotRunning),
{
}

/// `stop` when the recorded process is dead removes the PID file and reports
/// that nothing runs; it names no termination request.
pub proof fn lemma_stop_removes_stale(contents: Option<Seq<char>>, pid: u32, answer: Option<bool>)
    requires
        recorded_pid(contents) == Some(pid),
        !running(answer),
    ensures
        ({
            let begun = Supervisor::ReadingPid(Command::Stop);
            let read = begun.advance(EventView::PidFile(contents));
            let probed = read.advance(EventView::Probed(answer));
            let removed = probed.advance(EventView::Removed);
            &&& begun.pending() == ActionView::ReadPidFile
            &&& read.pending() == ActionView::Probe(pid)
            &&& probed.pending() == ActionView::RemovePidFile
            &&& removed == Supervisor::Done(Report::StaleRemoved)
            &&& removed.pending() == ActionView::Finish(Report::StaleRemoved)
        }),
{
}

/// `stop` when the recorded process is alive asks it to terminate. When the
/// request is accepted the PID file is removed and the process reported as
/// stopped; when it is not, the command fails with `KillFailed` and names no
/// removal, so that the PID file stays.
pub proof fn lemma_stop_terminates(contents: Option<Seq<char>>, pid: u32, answer: Option<bool>)
    requires
        recorded_pid(contents) == Some(pid),
    ensures
        ({
            let read = Supervisor::ReadingPid(Command::Stop).advance(EventView::PidFile(contents));
            let probed = read.advance(EventView::Probed(Some(true)));
            let asked = probed.advance(EventView::Terminated(answer));
            &&& probed.pending() == ActionView::Terminate(pid)
            &&& terminated(answer) ==> asked.pending() == ActionView::RemovePidFile
                && asked.advance(EventView::Removed) == Supervisor::Done(Report::Stopped(pid))
            &&& !terminated(answer) ==> asked == Supervisor::Done(
                Report::Failed(DaemonError::KillFailed),
            )
        }),
{
}

/// A command that has ended stays ended: later events change nothing.
pub proof fn lemma_done_is_final(report: Report, event: EventView)
    ensures
        Supervisor::Done(report).advance(event) == Supervisor::Done(report),
{
}

} // verus!
