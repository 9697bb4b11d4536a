//! Whether a daemon is alive, judged from the outside: by the socket file
//! and by whether a connection to it succeeds. No message is exchanged.

use vstd::prelude::*;

verus! {

/// What the socket path tells about the daemon.
#[derive(Clone, Copy, Debug, PartialEq, Eq)]
pub enum Liveness {
    /// There is no socket file.
    NotRunning,
    /// There is a socket file, but nothing accepts connections on it.
    Stale,
    /// There is a socket file and a connection to it succeeded.
    Running,
}

/// The liveness seen by a probe that found the socket file present or not
/// and, where it was present, could connect or not. Without a file no
/// connection is attempted, and `connects` does not count.
pub open spec fn liveness_of(artifact_present: bool, connects: bool) -> Liveness {
    if !artifact_present {
        Liveness::NotRunning
    } else if connects {
        Liveness::Running
    } else {
        Liveness::Stale
    }
}

/// Judges the daemon by what a probe of its socket path found.
pub fn liveness(artifact_present: bool, connects: bool) -> (seen: Liveness)
    ensures
        seen == liveness_of(artifact_present, connects),
{
    if !artifact_present {
        Liveness::NotRunning
    } else if connects {
        Liveness::Running
    } else {
        Liveness::Stale
    }
}

/// What `status` reports for a daemon at `socket_path`.
pub open spec fn status_text(seen: Liveness, socket_path: Seq<char>) -> Seq<char> {
    match seen {
        Liveness::NotRunning => "Daemon is not running (socket not found)"@,
        Liveness::Stale => "Socket exists but daemon is not responding (stale socket)"@,
        Liveness::Running => "Daemon is running on "@ + socket_path,
    }
}

/// The report of the `status` command. Reporting is all the command does:
/// it leaves the socket file alone whatever it finds.
pub fn status_command(seen: Liveness, socket_path: &str) -> (report: String)
    ensures
        report@ == status_text(seen, socket_path@),
{
    match seen {
        Liveness::NotRunning => "Daemon is not running (socket not found)".to_owned(),
        Liveness::Stale => "Socket exists but daemon is not responding (stale socket)".to_owned(),
        Liveness::Running => {
            let mut report = "Daemon is running on ".to_owned();
            report.append(socket_path);
            report
        },
    }
}

/// What the `stop` command does about the socket file and what it reports.
#[derive(Debug, PartialEq, Eq)]
pub struct StopPlan {
    /// Whether the socket file is to be removed.
    pub remove_artifact: bool,
    /// What to report once that is done.
    pub report: String,
}

/// Whether `stop` removes the socket file: whenever there is one, whether or
/// not a daemon still answers on it.
pub open spec fn stop_removes(seen: Liveness) -> bool {
    seen != Liveness::NotRunning
}

/// What `stop` reports.
pub open spec fn stop_text(seen: Liveness) -> Seq<char> {
    match seen {
        Liveness::NotRunning => "Daemon is not running (socket not found)"@,
        Liveness::Stale => "Removed stale socket (daemon was not running)"@,
        Liveness::Running => "Daemon stopped"@,
    }
}

/// The plan of the `stop` command. A running daemon is sent nothing: taking
/// its socket file away is the whole of the signal.
pub fn stop_daemon(seen: Liveness) -> (plan: StopPlan)
    ensures
        plan.remove_artifact == stop_removes(seen),
        plan.report@ == stop_text(seen),
{
    match seen {
        Liveness::NotRunning => StopPlan {
            remove_artifact: false,
            report: "Daemon is not running (socket not found)".to_owned(),
        },
        Liveness::Stale => StopPlan {
            remove_artifact: true,
            report: "Removed stale socket (daemon was not running)".to_owned(),
        },
        Liveness::Running => StopPlan {
            remove_artifact: true,
            report: "Daemon stopped".to_owned(),
        },
    }
}

} // verus!
