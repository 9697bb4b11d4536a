use autocomplete_rs::client::install::install_command;
use autocomplete_rs::client::probe::{liveness, status_command, stop_daemon, Liveness, StopPlan};
use autocomplete_rs::daemon::lifecycle::{start, Action, Event, Phase};
use autocomplete_rs::parser::parse_buffer;

#[test]
fn liveness_follows_the_socket_file_and_the_connection() {
    assert_eq!(liveness(false, false), Liveness::NotRunning);
    assert_eq!(liveness(false, true), Liveness::NotRunning);
    assert_eq!(liveness(true, false), Liveness::Stale);
    assert_eq!(liveness(true, true), Liveness::Running);
}

#[test]
fn status_without_socket_reports_not_running() {
    let report = status_command(liveness(false, false), "/tmp/nowhere.sock");
    assert_eq!(report, "Daemon is not running (socket not found)");
    assert!(report.contains("not running"));
}

#[test]
fn status_reports_running_with_the_path() {
    assert_eq!(
        status_command(Liveness::Running, "/tmp/autocomplete-rs.sock"),
        "Daemon is running on /tmp/autocomplete-rs.sock"
    );
    assert_eq!(status_command(Liveness::Running, ""), "Daemon is running on ");
}

#[test]
fn status_reports_stale_socket() {
    assert_eq!(
        status_command(Liveness::Stale, "/tmp/autocomplete-rs.sock"),
        "Socket exists but daemon is not responding (stale socket)"
    );
}

#[test]
fn stop_without_socket_removes_nothing() {
    assert_eq!(
        stop_daemon(Liveness::NotRunning),
        StopPlan {
            remove_artifact: false,
            report: "Daemon is not running (socket not found)".to_string()
        }
    );
}

#[test]
fn stop_removes_stale_socket_and_says_so() {
    let plan = stop_daemon(liveness(true, false));
    assert!(plan.remove_artifact);
    assert_eq!(plan.report, "Removed stale socket (daemon was not running)");
    assert!(plan.report.contains("stale"));
}

#[test]
fn stop_removes_live_socket_and_reports_success() {
    let plan = stop_daemon(liveness(true, true));
    assert!(plan.remove_artifact);
    assert_eq!(plan.report, "Daemon stopped");
}

#[test]
fn install_prints_zsh_instructions() {
    assert_eq!(
        install_command("zsh"),
        Ok(vec![
            "To install autocomplete-rs for zsh, add this to your ~/.zshrc:".to_string(),
            String::new(),
            "# autocomplete-rs".to_string(),
            "source <(autocomplete-rs shell-init zsh)".to_string(),
            String::new(),
            "Or manually source the integration script:".to_string(),
            "source /path/to/autocomplete-rs/shell-integration/zsh.zsh".to_string(),
        ])
    );
}

#[test]
fn install_refuses_other_shells() {
    assert_eq!(
        install_command("bash"),
        Err("Unsupported shell: bash. Currently only 'zsh' is supported.".to_string())
    );
    assert_eq!(
        install_command(""),
        Err("Unsupported shell: . Currently only 'zsh' is supported.".to_string())
    );
    assert_eq!(
        install_command("ZSH"),
        Err("Unsupported shell: ZSH. Currently only 'zsh' is supported.".to_string())
    );
    assert_eq!(
        install_command("zsh "),
        Err("Unsupported shell: zsh . Currently only 'zsh' is supported.".to_string())
    );
}

#[test]
fn parse_buffer_finds_nothing() {
    assert_eq!(parse_buffer("git comm", 8), Ok(vec![]));
    assert_eq!(parse_buffer("", 0), Ok(vec![]));
    assert_eq!(parse_buffer("ls", 100), Ok(vec![]));
}

#[test]
fn daemon_starts_by_clearing_the_socket_path() {
    let (daemon, first) = start("/tmp/autocomplete-rs.sock");
    assert_eq!(daemon.phase(), Phase::Clearing);
    assert_eq!(daemon.socket_path(), "/tmp/autocomplete-rs.sock");
    assert_eq!(first, Action::RemoveArtifact);
    assert_eq!(daemon.pending(), Action::RemoveArtifact);
}

#[test]
fn daemon_runs_from_start_to_shutdown() {
    let (mut daemon, _) = start("/tmp/a.sock");
    assert_eq!(daemon.step(Event::ArtifactCleared), Action::Bind);
    assert_eq!(daemon.phase(), Phase::Binding);
    assert_eq!(daemon.step(Event::Bound), Action::Listen);
    assert_eq!(daemon.phase(), Phase::Serving);
    assert_eq!(daemon.step(Event::Accepted), Action::Serve);
    assert_eq!(daemon.phase(), Phase::Serving);
    assert_eq!(daemon.step(Event::Accepted), Action::Serve);
    assert_eq!(daemon.step(Event::Interrupted), Action::RemoveArtifact);
    assert_eq!(daemon.phase(), Phase::Closing);
    assert_eq!(daemon.step(Event::ArtifactCleared), Action::Exit);
    assert_eq!(daemon.phase(), Phase::Stopped);
    assert_eq!(daemon.socket_path(), "/tmp/a.sock");
}

#[test]
fn bind_failure_is_fatal() {
    let (mut daemon, _) = start("/root/forbidden.sock");
    daemon.step(Event::ArtifactCleared);
    assert_eq!(
        daemon.step(Event::BindFailed),
        Action::Abort("Failed to bind to socket: /root/forbidden.sock".to_string())
    );
    assert_eq!(daemon.phase(), Phase::Failed);
    assert_eq!(
        daemon.step(Event::Accepted),
        Action::Abort("Failed to bind to socket: /root/forbidden.sock".to_string())
    );
    assert_eq!(daemon.phase(), Phase::Failed);
}

#[test]
fn failed_accept_does_not_end_serving() {
    let (mut daemon, _) = start("/tmp/a.sock");
    daemon.step(Event::ArtifactCleared);
    daemon.step(Event::Bound);
    assert_eq!(daemon.step(Event::AcceptFailed), Action::Listen);
    assert_eq!(daemon.phase(), Phase::Serving);
    assert_eq!(daemon.step(Event::Accepted), Action::Serve);
    assert_eq!(daemon.phase(), Phase::Serving);
}

#[test]
fn no_session_is_started_after_the_interrupt() {
    let (mut daemon, _) = start("/tmp/a.sock");
    daemon.step(Event::ArtifactCleared);
    daemon.step(Event::Bound);
    daemon.step(Event::Interrupted);
    assert_eq!(daemon.step(Event::Accepted), Action::RemoveArtifact);
    assert_eq!(daemon.phase(), Phase::Closing);
    daemon.step(Event::ArtifactCleared);
    assert_eq!(daemon.step(Event::Accepted), Action::Exit);
    assert_eq!(daemon.step(Event::Bound), Action::Exit);
    assert_eq!(daemon.phase(), Phase::Stopped);
}

#[test]
fn events_out_of_turn_change_nothing() {
    let (mut daemon, _) = start("/tmp/a.sock");
    assert_eq!(daemon.step(Event::Accepted), Action::RemoveArtifact);
    assert_eq!(daemon.step(Event::Interrupted), Action::RemoveArtifact);
    assert_eq!(daemon.phase(), Phase::Clearing);
    daemon.step(Event::ArtifactCleared);
    assert_eq!(daemon.step(Event::ArtifactCleared), Action::Bind);
    assert_eq!(daemon.step(Event::Interrupted), Action::Bind);
    assert_eq!(daemon.phase(), Phase::Binding);
    daemon.step(Event::Bound);
    assert_eq!(daemon.step(Event::Bound), Action::Listen);
    assert_eq!(daemon.step(Event::BindFailed), Action::Listen);
    assert_eq!(daemon.step(Event::ArtifactCleared), Action::Listen);
    assert_eq!(daemon.phase(), Phase::Serving);
}
