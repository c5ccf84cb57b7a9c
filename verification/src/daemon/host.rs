//! A model of what the supervisor works on, a PID file and the processes
//! that are alive, and what the commands do to it when every action is
//! performed as it is named.

use crate::daemon::pidfile::{decimal, lemma_pid_round_trip};
use crate::daemon::{
    recorded_pid, ActionView, Command, DaemonError, EventView, Report, SpawnFailure, Supervisor,
};
use vstd::prelude::*;

verus! {

/// The PID file of a directory, if there is one, and the processes that are
/// alive.
pub struct Host {
    pub pid_file: Option<Seq<char>>,
    pub live: Set<u32>,
}

/// What the host does when it is asked for something that can fail.
pub struct Conduct {
    /// What a spawn gives: the id of the new process, or a failure.
    pub spawn: Result<u32, SpawnFailure>,
    /// Whether the PID file can be written.
    pub writes: bool,
    /// Whether a termination request is accepted.
    pub terminates: bool,
}

/// The host after `action`, and the event that it hands back. Reading and
/// probing change nothing; a process that was spawned is alive; one that
/// accepted a termination request is not.
pub open spec fn perform(host: Host, action: ActionView, conduct: Conduct) -> (Host, EventView) {
    match action {
        ActionView::ReadPidFile => (host, EventView::PidFile(host.pid_file)),
        ActionView::Probe(pid) => (host, EventView::Probed(Some(host.live.contains(pid)))),
        ActionView::RemovePidFile => (Host { pid_file: None, ..host }, EventView::Removed),
        ActionView::Spawn => match conduct.spawn {
            Ok(pid) => (Host { live: host.live.insert(pid), ..host }, EventView::Spawned(Ok(pid))),
            Err(failure) => (host, EventView::Spawned(Err(failure))),
        },
        ActionView::WritePidFile(contents) => if conduct.writes {
            (Host { pid_file: Some(contents), ..host }, EventView::Written(true))
        } else {
            (host, EventView::Written(false))
        },
        ActionView::Terminate(pid) => if conduct.terminates {
            (Host { live: host.live.remove(pid), ..host }, EventView::Terminated(Some(true)))
        } else {
            (host, EventView::Terminated(Some(false)))
        },
        ActionView::Finish(_) => (host, EventView::Removed),
    }
}

/// The supervisor and the host after at most `steps` actions were performed,
/// each answered by its event.
pub open spec fn run(state: Supervisor, host: Host, conduct: Conduct, steps: nat) -> (
    Supervisor,
    Host,
)
    decreases steps,
{
    if steps == 0 || state is Done {
        (state, host)
    } else {
        let (changed, event) = perform(host, state.pending(), conduct);
        run(state.advance(event), changed, conduct, (steps - 1) as nat)
    }
}

/// The most actions that a command needs before it ends.
pub open spec fn enough() -> nat {
    5
}

/// The supervisor and the host after `command` was carried out.
pub open spec fn carry_out(command: Command, host: Host, conduct: Conduct) -> (Supervisor, Host) {
    run(Supervisor::ReadingPid(command), host, conduct, enough())
}

/// Whether the PID file of `host` records a process that is alive.
pub open spec fn daemon_alive(host: Host) -> bool {
    recorded_pid(host.pid_file) matches Some(pid) && host.live.contains(pid)
}

/// Every command ends within five actions.
pub proof fn lemma_every_command_ends(command: Command, host: Host, conduct: Conduct)
    ensures
        carry_out(command, host, conduct).0 is Done,
{
    reveal_with_fuel(run, 6);
}

/// `status` leaves the PID file and the processes as they are, and tells
/// the three cases apart.
pub proof fn lemma_status_changes_nothing(host: Host, conduct: Conduct)
    ensures
        carry_out(Command::Status, host, conduct).1 == host,
        carry_out(Command::Status, host, conduct).0 == Supervisor::Done(
            match recorded_pid(host.pid_file) {
                None => Report::NotRunning,
                Some(pid) => if host.live.contains(pid) {
                    Report::Running(pid)
                } else {
                    Report::Stale
                },
            },
        ),
{
    reveal_with_fuel(run, 6);
}

/// `start` where no PID file records a process spawns one, and leaves a PID
/// file that records the new process, which is alive. A second `start` then
/// reports that process as running and changes nothing.
pub proof fn lemma_start_then_start(host: Host, conduct: Conduct, child: u32)
    requires
        recorded_pid(host.pid_file) is None,
        conduct.spawn == Ok::<u32, SpawnFailure>(child),
        conduct.writes,
    ensures
        ({
            let (first, started) = carry_out(Command::Start, host, conduct);
            let (second, after) = carry_out(Command::Start, started, conduct);
            &&& first == Supervisor::Done(Report::Started(child))
            &&& started.pid_file == Some(decimal(child as nat))
            &&& recorded_pid(started.pid_file) == Some(child)
            &&& started.live == host.live.insert(child)
            &&& daemon_alive(started)
            &&& second == Supervisor::Done(Report::AlreadyRunning(child))
            &&& after == started
        }),
{
    reveal_with_fuel(run, 6);
    lemma_pid_round_trip(child);
}

/// `start` over a PID file that records a dead process replaces it: the
/// new process is recorded and alive.
pub proof fn lemma_start_over_stale(host: Host, conduct: Conduct, child: u32)
    requires
        recorded_pid(host.pid_file) matches Some(pid) && !host.live.contains(pid),
        conduct.spawn == Ok::<u32, SpawnFailure>(child),
        conduct.writes,
    ensures
        ({
            let (ended, started) = carry_out(Command::Start, host, conduct);
            &&& ended == Supervisor::Done(Report::Started(child))
            &&& recorded_pid(started.pid_file) == Some(child)
            &&& started.live == host.live.insert(child)
        }),
{
    reveal_with_fuel(run, 6);
    lemma_pid_round_trip(child);
}

/// `start` that cannot spawn fails and leaves no PID file behind; the
/// processes stay as they are.
pub proof fn lemma_start_that_cannot_spawn(host: Host, conduct: Conduct, failure: SpawnFailure)
    requires
        !daemon_alive(host),
        conduct.spawn == Err::<u32, SpawnFailure>(failure),
    ensures
        ({
            let (ended, left) = carry_out(Command::Start, host, conduct);
            &&& ended == Supervisor::Done(
                Report::Failed(
                    match failure {
                        SpawnFailure::LogFile => DaemonError::IoError,
                        SpawnFailure::Process => DaemonError::SpawnFailed,
                    },
                ),
            )
            &&& left.live == host.live
            &&& recorded_pid(host.pid_file) is Some ==> left.pid_file is None
            &&& recorded_pid(host.pid_file) is None ==> left.pid_file == host.pid_file
        }),
{
    reveal_with_fuel(run, 6);
}

/// `stop` where no PID file records a process changes nothing.
pub proof fn lemma_stop_when_not_running(host: Host, conduct: Conduct)
    requires
        recorded_pid(host.pid_file) is None,
    ensures
        carry_out(Command::Stop, host, conduct) == (Supervisor::Done(Report::NotRunning), host),
{
    reveal_with_fuel(run, 6);
}

/// `stop` when the recorded process is dead removes the PID file and
/// touches no process.
pub proof fn lemma_stop_over_stale(host: Host, conduct: Conduct)
    requires
        recorded_pid(host.pid_file) matches Some(pid) && !host.live.contains(pid),
    ensures
        ({
            let (ended, left) = carry_out(Command::Stop, host, conduct);
            &&& ended == Supervisor::Done(Report::StaleRemoved)
            &&& left.pid_file is None
            &&& left.live == host.live
        }),
{
    reveal_with_fuel(run, 6);
}

/// `stop` when the recorded process is alive ends it and removes the PID
/// file; when the termination request is not accepted, it fails with
/// `KillFailed` and changes nothing.
pub proof fn lemma_stop_running(host: Host, conduct: Conduct, pid: u32)
    requires
        recorded_pid(host.pid_file) == Some(pid),
        host.live.contains(pid),
    ensures
        ({
            let (ended, left) = carry_out(Command::Stop, host, conduct);
            if conduct.terminates {
                &&& ended == Supervisor::Done(Report::Stopped(pid))
                &&& left.pid_file is None
                &&& left.live == host.live.remove(pid)
            } else {
                &&& ended == Supervisor::Done(Report::Failed(DaemonError::KillFailed))
                &&& left == host
            }
        }),
{
    reveal_with_fuel(run, 6);
}

/// `start` and then `stop` leave no PID file, and the process that was
/// spawned is no longer alive.
pub proof fn lemma_start_then_stop(host: Host, conduct: Conduct, child: u32)
    requires
        recorded_pid(host.pid_file) is None,
        conduct.spawn == Ok::<u32, SpawnFailure>(child),
        conduct.writes,
        conduct.terminates,
    ensures
        ({
            let (_, started) = carry_out(Command::Start, host, conduct);
            let (ended, left) = carry_out(Command::Stop, started, conduct);
            &&& ended == Supervisor::Done(Report::Stopped(child))
            &&& left.pid_file is None
            &&& !left.live.contains(child)
        }),
{
    lemma_start_then_start(host, conduct, child);
    let (_, started) = carry_out(Command::Start, host, conduct);
    lemma_stop_running(started, conduct, child);
}

} // verus!
