use clientats_shell::launch::MigrationOutcome;
use clientats_shell::lifecycle::{
    run_startup, start_event, Action, Event, Phase, StartupFailure, StartupMode, StartupPlan,
    Supervisor,
};
use clientats_shell::probe::ProbeConfig;

fn happy_plan() -> StartupPlan {
    StartupPlan {
        dirs_ok: true,
        migration: MigrationOutcome::Succeeded,
        allocated_port: Some(4000),
        spawn_pid: Some(4242),
        probe_outcomes: vec![false, false, false, false, true],
        window_ok: true,
    }
}

#[test]
fn startup_reaches_running_and_navigates_once() {
    // A backend that starts listening on port 4000 within two seconds:
    // startup reaches Running and the window step is requested exactly
    // once, with the backend URL.
    let (sup, report) = run_startup(&happy_plan(), &ProbeConfig::standard());
    assert_eq!(sup.phase, Phase::Running);
    assert_eq!(sup.failure, None);
    assert_eq!(sup.port, 4000);
    assert_eq!(sup.slot.child, Some(4242));
    assert_eq!(report.spawn_attempts, 1);
    assert_eq!(report.window_requests, 1);
    assert_eq!(report.window_url, Some("http://127.0.0.1:4000".to_string()));
}

#[test]
fn startup_without_allocated_port_uses_default() {
    let mut plan = happy_plan();
    plan.allocated_port = None;
    let (sup, report) = run_startup(&plan, &ProbeConfig::standard());
    assert_eq!(sup.phase, Phase::Running);
    assert_eq!(sup.port, 4000);
    assert_eq!(report.window_url, Some("http://127.0.0.1:4000".to_string()));
}

#[test]
fn backend_that_never_listens_aborts_without_window() {
    // The endpoint never accepts: startup aborts at the ceiling and the
    // window step is never requested.
    let mut plan = happy_plan();
    plan.probe_outcomes = vec![false; 100];
    let (sup, report) = run_startup(&plan, &ProbeConfig::standard());
    assert_eq!(sup.phase, Phase::Terminated);
    assert_eq!(sup.failure, Some(StartupFailure::ReadinessTimeout));
    assert_eq!(report.window_requests, 0);
    assert_eq!(report.window_url, None);
    // The probe gave up at the configured ceiling.
    assert_eq!(report.probe_elapsed_ms, Some(30000));
    // The spawned child is still tracked, to be killed on host exit.
    assert_eq!(sup.slot.child, Some(4242));
}

#[test]
fn migration_failure_does_not_prevent_spawn() {
    for migration in [
        MigrationOutcome::Succeeded,
        MigrationOutcome::CompletedWithWarnings,
        MigrationOutcome::FailedToRun,
    ] {
        let mut plan = happy_plan();
        plan.migration = migration;
        let (sup, report) = run_startup(&plan, &ProbeConfig::standard());
        assert_eq!(report.spawn_attempts, 1);
        assert_eq!(sup.phase, Phase::Running);
    }
}

#[test]
fn directory_failure_aborts_before_spawn() {
    let mut plan = happy_plan();
    plan.dirs_ok = false;
    let (sup, report) = run_startup(&plan, &ProbeConfig::standard());
    assert_eq!(sup.phase, Phase::Terminated);
    assert_eq!(sup.failure, Some(StartupFailure::DirectoryCreateError));
    assert_eq!(report.spawn_attempts, 0);
    assert_eq!(report.window_requests, 0);
}

#[test]
fn spawn_failure_aborts() {
    let mut plan = happy_plan();
    plan.spawn_pid = None;
    let (sup, report) = run_startup(&plan, &ProbeConfig::standard());
    assert_eq!(sup.phase, Phase::Terminated);
    assert_eq!(sup.failure, Some(StartupFailure::SpawnError));
    assert_eq!(report.spawn_attempts, 1);
    assert_eq!(report.window_requests, 0);
}

#[test]
fn window_failure_aborts() {
    let mut plan = happy_plan();
    plan.window_ok = false;
    let (sup, report) = run_startup(&plan, &ProbeConfig::standard());
    assert_eq!(sup.phase, Phase::Terminated);
    assert_eq!(sup.failure, Some(StartupFailure::WindowError));
    assert_eq!(report.window_requests, 1);
}

#[test]
fn host_exit_kills_exactly_once() {
    // After a successful spawn exactly one child is tracked; the host-exit
    // event empties the handle and issues the termination signal exactly
    // once, and a later exit event signals nothing more.
    let (mut sup, _) = run_startup(&happy_plan(), &ProbeConfig::standard());
    assert_eq!(sup.slot.child, Some(4242));
    assert_eq!(sup.slot.kill_signals, 0);
    let a = sup.step(Event::HostExit);
    assert_eq!(a, Action::KillChild);
    assert_eq!(sup.slot.child, None);
    assert_eq!(sup.slot.kill_signals, 1);
    assert_eq!(sup.phase, Phase::Terminating);
    let a = sup.step(Event::ChildSignaled);
    assert_eq!(a, Action::Wait);
    assert_eq!(sup.phase, Phase::Terminated);
    let a = sup.step(Event::HostExit);
    assert_eq!(a, Action::Wait);
    assert_eq!(sup.slot.kill_signals, 1);
}

#[test]
fn host_exit_after_probe_timeout_still_kills_child() {
    let mut plan = happy_plan();
    plan.probe_outcomes = vec![];
    let (mut sup, _) = run_startup(&plan, &ProbeConfig::standard());
    assert_eq!(sup.slot.child, Some(4242));
    let a = sup.step(Event::HostExit);
    assert_eq!(a, Action::KillChild);
    assert_eq!(sup.slot.child, None);
    assert_eq!(sup.slot.kill_signals, 1);
}

#[test]
fn host_exit_without_child_signals_nothing() {
    let mut sup = Supervisor::new();
    let a = sup.step(Event::HostExit);
    assert_eq!(a, Action::Wait);
    assert_eq!(sup.slot.kill_signals, 0);
    assert_eq!(sup.phase, Phase::Terminating);
}

#[test]
fn development_mode_probes_well_known_port() {
    let mut sup = Supervisor::new();
    assert_eq!(start_event(StartupMode::Development), Event::StartDevelopment);
    assert_eq!(start_event(StartupMode::Production), Event::StartProduction);
    let a = sup.step(Event::StartDevelopment);
    assert_eq!(a, Action::ProbeReadiness);
    assert_eq!(sup.phase, Phase::DevAttached);
    assert_eq!(sup.port, 4000);
    let a = sup.step(Event::ProbeFinished(true));
    assert_eq!(a, Action::ShowWindow);
    assert_eq!(sup.url(), "http://127.0.0.1:4000");
    let a = sup.step(Event::WindowShown(true));
    assert_eq!(a, Action::Wait);
    assert_eq!(sup.phase, Phase::Running);
}

#[test]
fn development_mode_timeout_aborts() {
    let mut sup = Supervisor::new();
    sup.step(Event::StartDevelopment);
    let a = sup.step(Event::ProbeFinished(false));
    assert_eq!(a, Action::Abort);
    assert_eq!(sup.phase, Phase::Terminated);
    assert_eq!(sup.failure, Some(StartupFailure::ReadinessTimeout));
}

#[test]
fn production_step_sequence() {
    let mut sup = Supervisor::new();
    assert_eq!(sup.step(Event::StartProduction), Action::PrepareDirectories);
    assert_eq!(sup.step(Event::DirectoriesReady(true)), Action::RunMigrations);
    assert_eq!(sup.phase, Phase::DirectoriesPrepared);
    assert_eq!(
        sup.step(Event::MigrationFinished(MigrationOutcome::CompletedWithWarnings)),
        Action::ChoosePort
    );
    assert_eq!(sup.phase, Phase::Migrated);
    assert_eq!(sup.step(Event::PortChosen(8123)), Action::LaunchServer);
    assert_eq!(sup.phase, Phase::Launching);
    assert_eq!(sup.port, 8123);
    assert_eq!(sup.step(Event::SpawnFinished(Some(7))), Action::ProbeReadiness);
    assert_eq!(sup.phase, Phase::AwaitingReadiness);
    assert_eq!(sup.slot.child, Some(7));
    assert_eq!(sup.step(Event::ProbeFinished(true)), Action::ShowWindow);
    assert_eq!(sup.phase, Phase::Ready);
    assert_eq!(sup.url(), "http://127.0.0.1:8123");
    assert_eq!(sup.step(Event::WindowShown(true)), Action::Wait);
    assert_eq!(sup.phase, Phase::Running);
}

#[test]
fn unexpected_events_are_ignored() {
    let mut sup = Supervisor::new();
    assert_eq!(sup.step(Event::ProbeFinished(true)), Action::Wait);
    assert_eq!(sup.phase, Phase::Idle);
    assert_eq!(sup.step(Event::WindowShown(true)), Action::Wait);
    assert_eq!(sup.phase, Phase::Idle);
}
