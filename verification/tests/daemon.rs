use chainlink::daemon::pidfile::{format_pid, read_pid};
use chainlink::daemon::{
    is_process_running, kill_process, start, status, stop, Action, Command, DaemonError, Event,
    Report, SpawnFailure, Supervisor,
};

/// A directory and a process table that live in memory.
struct Host {
    pid_file: Option<String>,
    live: Vec<u32>,
    next_pid: u32,
    spawn_failure: Option<SpawnFailure>,
    write_fails: bool,
    kill_refused: bool,
    done: Vec<&'static str>,
}

impl Host {
    fn new() -> Host {
        Host {
            pid_file: None,
            live: Vec::new(),
            next_pid: 4_000,
            spawn_failure: None,
            write_fails: false,
            kill_refused: false,
            done: Vec::new(),
        }
    }

    fn perform(&mut self, action: Action) -> Result<Event, Report> {
        Ok(match action {
            Action::ReadPidFile => {
                self.done.push("read");
                Event::PidFile(self.pid_file.clone())
            }
            Action::Probe(pid) => {
                self.done.push("probe");
                Event::Probed(Some(self.live.contains(&pid)))
            }
            Action::RemovePidFile => {
                self.done.push("remove");
                self.pid_file = None;
                Event::Removed
            }
            Action::Spawn => {
                self.done.push("spawn");
                match self.spawn_failure {
                    Some(failure) => Event::Spawned(Err(failure)),
                    None => {
                        let pid = self.next_pid;
                        self.next_pid += 1;
                        self.live.push(pid);
                        Event::Spawned(Ok(pid))
                    }
                }
            }
            Action::WritePidFile(contents) => {
                self.done.push("write");
                if self.write_fails {
                    Event::Written(false)
                } else {
                    self.pid_file = Some(contents);
                    Event::Written(true)
                }
            }
            Action::Terminate(pid) => {
                self.done.push("terminate");
                if self.kill_refused {
                    Event::Terminated(Some(false))
                } else {
                    self.live.retain(|p| *p != pid);
                    Event::Terminated(Some(true))
                }
            }
            Action::Finish(report) => return Err(report),
        })
    }

    fn run(&mut self, begun: (Supervisor, Action)) -> Report {
        self.done.clear();
        let (mut state, mut action) = begun;
        for _ in 0..20 {
            let event = match self.perform(action) {
                Ok(event) => event,
                Err(report) => return report,
            };
            let next = state.step(&event);
            state = next.0;
            action = next.1;
        }
        panic!("the command did not end");
    }
}

#[test]
fn start_spawns_and_records_then_reports_already_running() {
    let mut host = Host::new();
    assert_eq!(host.run(start()), Report::Started(4_000));
    assert_eq!(host.done, vec!["read", "spawn", "write"]);
    assert_eq!(host.pid_file.as_deref(), Some("4000"));
    assert!(host.live.contains(&4_000));
    assert_eq!(host.run(start()), Report::AlreadyRunning(4_000));
    assert_eq!(host.done, vec!["read", "probe"]);
    assert_eq!(host.pid_file.as_deref(), Some("4000"));
    assert_eq!(host.live, vec![4_000]);
}

#[test]
fn start_replaces_a_stale_pid_file() {
    let mut host = Host::new();
    host.pid_file = Some("123\n".to_string());
    assert_eq!(host.run(start()), Report::Started(4_000));
    assert_eq!(host.done, vec!["read", "probe", "remove", "spawn", "write"]);
    assert_eq!(host.pid_file.as_deref(), Some("4000"));
}

#[test]
fn start_over_garbage_spawns() {
    let mut host = Host::new();
    host.pid_file = Some("not a number".to_string());
    assert_eq!(host.run(start()), Report::Started(4_000));
    assert_eq!(host.done, vec!["read", "spawn", "write"]);
    assert_eq!(host.pid_file.as_deref(), Some("4000"));
}

#[test]
fn start_reports_spawn_and_io_failures() {
    let mut host = Host::new();
    host.spawn_failure = Some(SpawnFailure::Process);
    assert_eq!(host.run(start()), Report::Failed(DaemonError::SpawnFailed));
    assert_eq!(host.pid_file, None);
    host.spawn_failure = Some(SpawnFailure::LogFile);
    assert_eq!(host.run(start()), Report::Failed(DaemonError::IoError));
    assert_eq!(host.pid_file, None);
    host.spawn_failure = None;
    host.write_fails = true;
    assert_eq!(host.run(start()), Report::Failed(DaemonError::IoError));
    assert_eq!(host.done, vec!["read", "spawn", "write"]);
    assert_eq!(host.pid_file, None);
}

#[test]
fn stop_without_pid_file_reports_not_running() {
    let mut host = Host::new();
    assert_eq!(host.run(stop()), Report::NotRunning);
    assert_eq!(host.done, vec!["read"]);
}

#[test]
fn stop_removes_a_stale_pid_file_without_signalling() {
    let mut host = Host::new();
    host.pid_file = Some("777".to_string());
    host.live = vec![1, 2, 3];
    assert_eq!(host.run(stop()), Report::StaleRemoved);
    assert_eq!(host.done, vec!["read", "probe", "remove"]);
    assert_eq!(host.pid_file, None);
    assert_eq!(host.live, vec![1, 2, 3]);
}

#[test]
fn start_then_stop_leaves_nothing_behind() {
    let mut host = Host::new();
    assert_eq!(host.run(start()), Report::Started(4_000));
    assert_eq!(host.run(stop()), Report::Stopped(4_000));
    assert_eq!(host.done, vec!["read", "probe", "terminate", "remove"]);
    assert_eq!(host.pid_file, None);
    assert!(!host.live.contains(&4_000));
    assert_eq!(host.run(stop()), Report::NotRunning);
    assert_eq!(host.run(status()), Report::NotRunning);
}

#[test]
fn stop_keeps_the_pid_file_when_the_kill_fails() {
    let mut host = Host::new();
    assert_eq!(host.run(start()), Report::Started(4_000));
    host.kill_refused = true;
    assert_eq!(host.run(stop()), Report::Failed(DaemonError::KillFailed));
    assert_eq!(host.done, vec!["read", "probe", "terminate"]);
    assert_eq!(host.pid_file.as_deref(), Some("4000"));
    host.kill_refused = false;
    assert_eq!(host.run(stop()), Report::Stopped(4_000));
    assert_eq!(host.pid_file, None);
}

#[test]
fn status_never_changes_anything() {
    let mut host = Host::new();
    assert_eq!(host.run(status()), Report::NotRunning);
    assert_eq!(host.done, vec!["read"]);
    assert_eq!(host.pid_file, None);

    host.pid_file = Some("55".to_string());
    host.live = vec![55];
    assert_eq!(host.run(status()), Report::Running(55));
    assert_eq!(host.done, vec!["read", "probe"]);
    assert_eq!(host.pid_file.as_deref(), Some("55"));
    assert_eq!(host.live, vec![55]);

    host.live = vec![];
    assert_eq!(host.run(status()), Report::Stale);
    assert_eq!(host.done, vec!["read", "probe"]);
    assert_eq!(host.pid_file.as_deref(), Some("55"));
}

#[test]
fn events_out_of_turn_are_ignored() {
    let (state, action) = start();
    assert_eq!(state, Supervisor::ReadingPid(Command::Start));
    assert_eq!(action, Action::ReadPidFile);
    let (state, action) = state.step(&Event::Written(true));
    assert_eq!(state, Supervisor::ReadingPid(Command::Start));
    assert_eq!(action, Action::ReadPidFile);
    let (state, action) = state.step(&Event::PidFile(Some("12".to_string())));
    assert_eq!(state, Supervisor::Probing(Command::Start, 12));
    assert_eq!(action, Action::Probe(12));
    let (state, action) = state.step(&Event::Removed);
    assert_eq!(state, Supervisor::Probing(Command::Start, 12));
    assert_eq!(action, Action::Probe(12));
    let (state, action) = state.step(&Event::Probed(None));
    assert_eq!(state, Supervisor::ReplacingStale);
    assert_eq!(action, Action::RemovePidFile);
    let (state, action) = Supervisor::Done(Report::Stale).step(&Event::Spawned(Ok(3)));
    assert_eq!(state, Supervisor::Done(Report::Stale));
    assert_eq!(action, Action::Finish(Report::Stale));
    assert_eq!(state.next_action(), Action::Finish(Report::Stale));
}

#[test]
fn written_pid_file_holds_the_decimal_pid() {
    let (state, action) = Supervisor::Spawning.step(&Event::Spawned(Ok(31_337)));
    assert_eq!(state, Supervisor::Recording(31_337));
    assert_eq!(action, Action::WritePidFile("31337".to_string()));
}

#[test]
fn only_a_positive_probe_means_running() {
    assert!(is_process_running(Some(true)));
    assert!(!is_process_running(Some(false)));
    assert!(!is_process_running(None));
}

#[test]
fn only_an_accepted_request_terminates() {
    assert_eq!(kill_process(Some(true)), Ok(()));
    assert_eq!(kill_process(Some(false)), Err(DaemonError::KillFailed));
    assert_eq!(kill_process(None), Err(DaemonError::KillFailed));
}

#[test]
fn read_pid_reads_what_std_parses() {
    let samples = [
        "", " ", "0", "1", "42", "  42  ", "42\n", "\t7\r\n", "+7", "+", "-7", "-0", "++7", "+ 7",
        "007", "4294967295", "4294967296", "+4294967295", "99999999999999999999", "12a", "a12",
        "1 2", "１２", "\u{3000}5\u{a0}", "\u{2003}9\u{85}", "\u{200b}5", "0x10", "1e3", "٣",
        "00000000000000000000001",
    ];
    for sample in samples {
        assert_eq!(read_pid(sample), sample.trim().parse::<u32>().ok(), "{:?}", sample);
    }
}

#[test]
fn read_pid_examples() {
    assert_eq!(read_pid("4000"), Some(4_000));
    assert_eq!(read_pid(" 4000\n"), Some(4_000));
    assert_eq!(read_pid("+15"), Some(15));
    assert_eq!(read_pid("4294967295"), Some(u32::MAX));
    assert_eq!(read_pid("4294967296"), None);
    assert_eq!(read_pid(""), None);
    assert_eq!(read_pid("\n"), None);
    assert_eq!(read_pid("pid"), None);
    assert_eq!(read_pid("-1"), None);
    assert_eq!(read_pid("12 34"), None);
}

#[test]
fn format_pid_writes_decimal_digits() {
    assert_eq!(format_pid(0), "0");
    assert_eq!(format_pid(7), "7");
    assert_eq!(format_pid(10), "10");
    assert_eq!(format_pid(4_000), "4000");
    assert_eq!(format_pid(u32::MAX), "4294967295");
}

#[test]
fn format_pid_round_trips() {
    for pid in [0, 1, 9, 10, 99, 100, 65_535, 65_536, 1_000_000_007, u32::MAX - 1, u32::MAX] {
        assert_eq!(format_pid(pid), pid.to_string());
        assert_eq!(read_pid(&format_pid(pid)), Some(pid));
    }
}
