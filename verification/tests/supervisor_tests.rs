use rathole_panel::supervisor::build_args;
use rathole_panel::supervisor::stop_report;
use rathole_panel::supervisor::Liveness;
use rathole_panel::supervisor::StartDecision;
use rathole_panel::supervisor::StopOutcome;
use rathole_panel::supervisor::Supervisor;

#[test]
fn fresh_supervisor_records_nothing() {
    let sup = Supervisor::new();
    assert!(!sup.is_running());
}

#[test]
fn start_from_idle_spawns_and_records() {
    let mut sup = Supervisor::new();
    let d = sup.check_start(Liveness::Running);
    assert_eq!(d, StartDecision::ShouldSpawn);
    let r = sup.complete_start(Ok(4242));
    assert_eq!(r, Ok(String::from("Started successfully")));
    assert!(sup.is_running());
}

#[test]
fn second_start_while_alive_is_blocked() {
    let mut sup = Supervisor::new();
    assert_eq!(sup.check_start(Liveness::Exited), StartDecision::ShouldSpawn);
    sup.complete_start(Ok(7)).unwrap();
    let d = sup.check_start(Liveness::Running);
    assert_eq!(d, StartDecision::AlreadyRunning);
    assert!(sup.is_running());
    assert_eq!(sup.stop(), StopOutcome::KillRequested(7));
}

#[test]
fn silent_exit_allows_restart() {
    let mut sup = Supervisor::new();
    sup.check_start(Liveness::Unknown);
    sup.complete_start(Ok(1)).unwrap();
    let d = sup.check_start(Liveness::Exited);
    assert_eq!(d, StartDecision::ShouldSpawn);
    assert!(!sup.is_running());
    sup.complete_start(Ok(2)).unwrap();
    assert_eq!(sup.stop(), StopOutcome::KillRequested(2));
}

#[test]
fn poll_failure_is_treated_as_not_running() {
    let mut sup = Supervisor::new();
    sup.check_start(Liveness::Running);
    sup.complete_start(Ok(9)).unwrap();
    let d = sup.check_start(Liveness::Unknown);
    assert_eq!(d, StartDecision::ShouldSpawn);
    assert!(!sup.is_running());
}

#[test]
fn spawn_failure_surfaces_and_leaves_idle() {
    let mut sup = Supervisor::new();
    sup.check_start(Liveness::Running);
    let r = sup.complete_start(Err(String::from("boom")));
    assert_eq!(r, Err(String::from("Failed to start: boom")));
    assert!(!sup.is_running());
}

#[test]
fn stop_when_idle_is_a_success() {
    let mut sup = Supervisor::new();
    let outcome = sup.stop();
    assert_eq!(outcome, StopOutcome::WasNotRunning);
    assert_eq!(stop_report(outcome, None), Ok(String::from("Not running")));
    let again = sup.stop();
    assert_eq!(
        stop_report(again, Some(String::from("ignored"))),
        Ok(String::from("Not running"))
    );
}

#[test]
fn stop_reports_kill_result() {
    assert_eq!(
        stop_report(StopOutcome::KillRequested(3), None),
        Ok(String::from("Stopped successfully"))
    );
    assert_eq!(
        stop_report(StopOutcome::KillRequested(3), Some(String::from("gone"))),
        Err(String::from("Failed to kill process: gone"))
    );
}

#[test]
fn client_args_select_client_role() {
    let args = build_args("/tmp/client.toml", false);
    assert_eq!(args, vec![String::from("--client"), String::from("/tmp/client.toml")]);
}

#[test]
fn server_args_select_server_role() {
    let args = build_args("/etc/rathole/server.toml", true);
    assert_eq!(args, vec![String::from("--server"), String::from("/etc/rathole/server.toml")]);
}
