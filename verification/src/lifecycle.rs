//! The lifecycle coordinator.
//!
//! A [`Supervisor`] is a state machine: the host feeds it one [`Event`] at
//! a time and performs the [`Action`] it answers with. The startup sequence
//! runs strictly in order — prepare directories, run migrations, choose a
//! port, spawn, probe readiness, show the window — and every fatal failure
//! aborts the whole application; a failed migration alone is tolerated. The
//! host's exit event terminates the tracked child, best-effort: the signal
//! is issued once and no confirmation of exit is awaited.
//!
//! [`spec_step`] is the transition table; [`Supervisor::step`] is proved to
//! follow it exactly. [`run_startup`] executes the whole production startup
//! against a scripted environment and carries the end-to-end guarantees.

use vstd::prelude::*;

use crate::endpoint::DEFAULT_PORT;
use crate::endpoint::backend_url;
use crate::endpoint::choose_port;
use crate::endpoint::spec_backend_url;
use crate::handle::ProcessSlot;
use crate::launch::MigrationOutcome;
use crate::probe::ProbeConfig;
use crate::probe::probe_schedule;
use crate::probe::spec_ready_within;

verus! {

/// How the shell runs: against an embedded backend it supervises itself,
/// or against an externally started backend (development). The mode is
/// resolved once at startup and threaded through as an ordinary value.
#[derive(Clone, Copy, PartialEq, Eq, Structural, Debug)]
pub enum StartupMode {
    Development,
    Production,
}

/// The event that begins a run in the given mode.
pub fn start_event(mode: StartupMode) -> (e: Event)
    ensures
        e == (match mode {
            StartupMode::Development => Event::StartDevelopment,
            StartupMode::Production => Event::StartProduction,
        }),
{
    match mode {
        StartupMode::Development => Event::StartDevelopment,
        StartupMode::Production => Event::StartProduction,
    }
}

/// The milestones of one supervisor run.
#[derive(Clone, Copy, PartialEq, Eq, Structural, Debug)]
pub enum Phase {
    /// Nothing has happened yet.
    Idle,
    /// The runtime directories exist.
    DirectoriesPrepared,
    /// The one-shot migration run has finished, in whatever way.
    Migrated,
    /// A port is chosen and the spawn is under way.
    Launching,
    /// The child is running; its endpoint is being probed.
    AwaitingReadiness,
    /// Development mode: an externally started backend is being probed on
    /// the well-known port; directories, migration and spawn are skipped.
    DevAttached,
    /// The endpoint accepted a connection; the window may be shown.
    Ready,
    /// The window shows the backend's interface.
    Running,
    /// The host is exiting; the child has been signaled.
    Terminating,
    /// The run is over, by orderly shutdown or by abort.
    Terminated,
}

/// The fatal conditions that abort a startup.
#[derive(Clone, Copy, PartialEq, Eq, Structural, Debug)]
pub enum StartupFailure {
    /// A runtime directory could not be created.
    DirectoryCreateError,
    /// The backend executable was missing or the process could not be
    /// created.
    SpawnError,
    /// The endpoint accepted no connection before the ceiling.
    ReadinessTimeout,
    /// The window could not be created or shown.
    WindowError,
}

/// What the world reports to the coordinator.
#[derive(Clone, Copy, PartialEq, Eq, Structural, Debug)]
pub enum Event {
    /// Begin a production startup: the backend is embedded and supervised.
    StartProduction,
    /// Begin a development startup: the backend is started externally.
    StartDevelopment,
    /// Directory preparation finished; `true` means every directory exists.
    DirectoriesReady(bool),
    /// The one-shot migration run finished.
    MigrationFinished(MigrationOutcome),
    /// A port was settled on.
    PortChosen(u16),
    /// The spawn finished: the child's process identifier, or nothing if
    /// the operating system refused.
    SpawnFinished(Option<u32>),
    /// The readiness probe finished; `true` means the endpoint accepted.
    ProbeFinished(bool),
    /// The window step finished; `true` means it was created and shown.
    WindowShown(bool),
    /// The host application is exiting.
    HostExit,
    /// The termination signal for the child has been issued.
    ChildSignaled,
}

/// What the coordinator asks the host to do next.
#[derive(Clone, Copy, PartialEq, Eq, Structural, Debug)]
pub enum Action {
    /// Create the runtime directories.
    PrepareDirectories,
    /// Run the one-shot migration process and wait for it.
    RunMigrations,
    /// Ask the operating system for a free ephemeral port.
    ChoosePort,
    /// Spawn the server from its launch spec.
    LaunchServer,
    /// Probe the endpoint until ready or timed out.
    ProbeReadiness,
    /// Create the window, navigate it to the backend URL and show it.
    ShowWindow,
    /// Issue the termination signal to the taken child, best-effort.
    KillChild,
    /// Startup cannot continue; terminate the whole application.
    Abort,
    /// Nothing to do.
    Wait,
}

/// The lifecycle coordinator's state: the phase reached, the chosen port,
/// the child slot, and the failure that ended the run, if any.
pub struct Supervisor {
    pub phase: Phase,
    pub port: u16,
    pub slot: ProcessSlot,
    pub failure: Option<StartupFailure>,
}

/// The transition table: for a state and an event, the successor state and
/// the action the host is to perform.
pub open spec fn spec_step(s: Supervisor, e: Event) -> (Supervisor, Action) {
    match (s.phase, e) {
        (Phase::Idle, Event::StartProduction) => (s, Action::PrepareDirectories),
        (Phase::Idle, Event::StartDevelopment) => (
            Supervisor { phase: Phase::DevAttached, port: DEFAULT_PORT, ..s },
            Action::ProbeReadiness,
        ),
        (Phase::Idle, Event::DirectoriesReady(true)) => (
            Supervisor { phase: Phase::DirectoriesPrepared, ..s },
            Action::RunMigrations,
        ),
        (Phase::Idle, Event::DirectoriesReady(false)) => (
            Supervisor {
                phase: Phase::Terminated,
                failure: Some(StartupFailure::DirectoryCreateError),
                ..s
            },
            Action::Abort,
        ),
        (Phase::DirectoriesPrepared, Event::MigrationFinished(_)) => (
            Supervisor { phase: Phase::Migrated, ..s },
            Action::ChoosePort,
        ),
        (Phase::Migrated, Event::PortChosen(p)) => (
            Supervisor { phase: Phase::Launching, port: p, ..s },
            Action::LaunchServer,
        ),
        (Phase::Launching, Event::SpawnFinished(Some(pid))) => (
            Supervisor {
                phase: Phase::AwaitingReadiness,
                slot: ProcessSlot { child: Some(pid), ..s.slot },
                ..s
            },
            Action::ProbeReadiness,
        ),
        (Phase::Launching, Event::SpawnFinished(None)) => (
            Supervisor { phase: Phase::Terminated, failure: Some(StartupFailure::SpawnError), ..s },
            Action::Abort,
        ),
        (Phase::AwaitingReadiness, Event::ProbeFinished(true)) => (
            Supervisor { phase: Phase::Ready, ..s },
            Action::ShowWindow,
        ),
        (Phase::DevAttached, Event::ProbeFinished(true)) => (
            Supervisor { phase: Phase::Ready, ..s },
            Action::ShowWindow,
        ),
        (Phase::AwaitingReadiness, Event::ProbeFinished(false)) => (
            Supervisor {
                phase: Phase::Terminated,
                failure: Some(StartupFailure::ReadinessTimeout),
                ..s
            },
            Action::Abort,
        ),
        (Phase::DevAttached, Event::ProbeFinished(false)) => (
            Supervisor {
                phase: Phase::Terminated,
                failure: Some(StartupFailure::ReadinessTimeout),
                ..s
            },
            Action::Abort,
        ),
        (Phase::Ready, Event::WindowShown(true)) => (
            Supervisor { phase: Phase::Running, ..s },
            Action::Wait,
        ),
        (Phase::Ready, Event::WindowShown(false)) => (
            Supervisor { phase: Phase::Terminated, failure: Some(StartupFailure::WindowError), ..s },
            Action::Abort,
        ),
        (Phase::Terminating, Event::ChildSignaled) => (
            Supervisor { phase: Phase::Terminated, ..s },
            Action::Wait,
        ),
        (_, Event::HostExit) => {
            let target = if s.phase == Phase::Terminated {
                Phase::Terminated
            } else {
                Phase::Terminating
            };
            match s.slot.child {
                Some(_) => (
                    Supervisor {
                        phase: target,
                        slot: ProcessSlot {
                            child: None,
                            kill_signals: (s.slot.kill_signals + 1) as u32,
                        },
                        ..s
                    },
                    Action::KillChild,
                ),
                None => (Supervisor { phase: target, ..s }, Action::Wait),
            }
        },
        _ => (s, Action::Wait),
    }
}

impl Supervisor {
    /// The coordinator's invariant: no child before the spawn step, no
    /// termination signal before the host exits, and never a signal while
    /// a child is still tracked — so the signal is issued at most once.
    pub open spec fn wf(self) -> bool {
        &&& (match self.phase {
            Phase::Idle
            | Phase::DirectoriesPrepared
            | Phase::Migrated
            | Phase::Launching
            | Phase::DevAttached => self.slot.child is None,
            _ => true,
        })
        &&& (self.phase != Phase::Terminating && self.phase != Phase::Terminated
            ==> self.slot.kill_signals == 0)
        &&& (self.slot.child is Some ==> self.slot.kill_signals == 0)
        &&& self.slot.kill_signals <= 1
    }

    /// A fresh coordinator, before anything has happened.
    pub fn new() -> (s: Supervisor)
        ensures
            s.wf(),
            s.phase == Phase::Idle,
            s.port == DEFAULT_PORT,
            s.slot.child is None,
            s.slot.kill_signals == 0,
            s.failure is None,
    {
        Supervisor {
            phase: Phase::Idle,
            port: DEFAULT_PORT,
            slot: ProcessSlot::new(),
            failure: None,
        }
    }

    /// The URL of the backend on the chosen port.
    pub fn url(&self) -> (s: String)
        ensures
            s@ == spec_backend_url(self.port),
    {
        backend_url(self.port)
    }

    /// Feed one event to the coordinator; it moves along the transition
    /// table and answers with the action the host is to perform.
    pub fn step(&mut self, e: Event) -> (a: Action)
        requires
            old(self).wf(),
        ensures
            final(self).wf(),
            *final(self) == spec_step(*old(self), e).0,
            a == spec_step(*old(self), e).1,
    {
        match (self.phase, e) {
            (Phase::Idle, Event::StartProduction) => Action::PrepareDirectories,
            (Phase::Idle, Event::StartDevelopment) => {
                self.phase = Phase::DevAttached;
                self.port = DEFAULT_PORT;
                Action::ProbeReadiness
            },
            (Phase::Idle, Event::DirectoriesReady(true)) => {
                self.phase = Phase::DirectoriesPrepared;
                Action::RunMigrations
            },
            (Phase::Idle, Event::DirectoriesReady(false)) => {
                self.phase = Phase::Terminated;
                self.failure = Some(StartupFailure::DirectoryCreateError);
                Action::Abort
            },
            (Phase::DirectoriesPrepared, Event::MigrationFinished(_)) => {
                self.phase = Phase::Migrated;
                Action::ChoosePort
            },
            (Phase::Migrated, Event::PortChosen(p)) => {
                self.phase = Phase::Launching;
                self.port = p;
                Action::LaunchServer
            },
            (Phase::Launching, Event::SpawnFinished(Some(pid))) => {
                self.phase = Phase::AwaitingReadiness;
                self.slot.record_spawn(pid);
                Action::ProbeReadiness
            },
            (Phase::Launching, Event::SpawnFinished(None)) => {
                self.phase = Phase::Terminated;
                self.failure = Some(StartupFailure::SpawnError);
                Action::Abort
            },
            (Phase::AwaitingReadiness, Event::ProbeFinished(true)) => {
                self.phase = Phase::Ready;
                Action::ShowWindow
            },
            (Phase::DevAttached, Event::ProbeFinished(true)) => {
                self.phase = Phase::Ready;
                Action::ShowWindow
            },
            (Phase::AwaitingReadiness, Event::ProbeFinished(false)) => {
                self.phase = Phase::Terminated;
                self.failure = Some(StartupFailure::ReadinessTimeout);
                Action::Abort
            },
            (Phase::DevAttached, Event::ProbeFinished(false)) => {
                self.phase = Phase::Terminated;
                self.failure = Some(StartupFailure::ReadinessTimeout);
                Action::Abort
            },
            (Phase::Ready, Event::WindowShown(true)) => {
                self.phase = Phase::Running;
                Action::Wait
            },
            (Phase::Ready, Event::WindowShown(false)) => {
                self.phase = Phase::Terminated;
                self.failure = Some(StartupFailure::WindowError);
                Action::Abort
            },
            (Phase::Terminating, Event::ChildSignaled) => {
                self.phase = Phase::Terminated;
                Action::Wait
            },
            (_, Event::HostExit) => {
                if self.phase != Phase::Terminated {
                    self.phase = Phase::Terminating;
                }
                let taken = self.slot.take_for_kill();
                if taken.is_some() {
                    Action::KillChild
                } else {
                    Action::Wait
                }
            },
            _ => Action::Wait,
        }
    }
}

/// What the environment does during one production startup: whether the
/// directories can be created, how the migration run ends, which ephemeral
/// port the operating system offers, whether the spawn succeeds and under
/// which process identifier, the outcome of each probe attempt, and whether
/// the window can be created and shown.
pub struct StartupPlan {
    pub dirs_ok: bool,
    pub migration: MigrationOutcome,
    pub allocated_port: Option<u16>,
    pub spawn_pid: Option<u32>,
    pub probe_outcomes: Vec<bool>,
    pub window_ok: bool,
}

/// What a startup run did to the world: how often a spawn was attempted,
/// how often the window step was requested and with which URL, and how
/// long the readiness probe ran, when it ran.
pub struct StartupReport {
    pub spawn_attempts: u32,
    pub window_requests: u32,
    pub window_url: Option<String>,
    pub probe_elapsed_ms: Option<u64>,
}

/// Run the whole production startup sequence against a scripted
/// environment, feeding the coordinator each outcome in order and stopping
/// where it aborts.
///
/// The contract carries the end-to-end guarantees: when every step
/// succeeds and some probe attempt before the timeout finds the endpoint,
/// the run ends in `Running` and the window step is requested exactly once,
/// with the URL of the chosen port; when no probe attempt succeeds, the run
/// aborts with `ReadinessTimeout` and the window step is never requested;
/// and a spawn is attempted whenever the directories could be created —
/// whatever became of the migration run.
pub fn run_startup(plan: &StartupPlan, cfg: &ProbeConfig) -> (r: (Supervisor, StartupReport))
    requires
        cfg.wf(),
    ensures
        r.0.wf(),
        r.1.spawn_attempts == (if plan.dirs_ok {
            1int
        } else {
            0int
        }),
        !plan.dirs_ok ==> r.0.phase == Phase::Terminated && r.0.failure == Some(
            StartupFailure::DirectoryCreateError,
        ) && r.1.window_requests == 0,
        plan.dirs_ok && plan.spawn_pid is None ==> r.0.phase == Phase::Terminated && r.0.failure
            == Some(StartupFailure::SpawnError) && r.1.window_requests == 0,
        plan.dirs_ok && plan.spawn_pid is Some ==> r.0.port == crate::endpoint::spec_chosen_port(
            plan.allocated_port,
        ) && r.0.slot.child == plan.spawn_pid,
        plan.dirs_ok && plan.spawn_pid is Some && !spec_ready_within(
            plan.probe_outcomes@,
            cfg.timeout_ms,
            cfg.interval_ms,
        ) ==> r.0.phase == Phase::Terminated && r.0.failure == Some(
            StartupFailure::ReadinessTimeout,
        ) && r.1.window_requests == 0 && (match r.1.probe_elapsed_ms {
            Some(e) => cfg.timeout_ms <= e < cfg.timeout_ms + cfg.interval_ms,
            None => false,
        }),
        plan.dirs_ok && plan.spawn_pid is Some && spec_ready_within(
            plan.probe_outcomes@,
            cfg.timeout_ms,
            cfg.interval_ms,
        ) ==> r.1.window_requests == 1 && (match r.1.window_url {
            Some(u) => u@ == spec_backend_url(
                crate::endpoint::spec_chosen_port(plan.allocated_port),
            ),
            None => false,
        }) && (if plan.window_ok {
            r.0.phase == Phase::Running && r.0.failure is None
        } else {
            r.0.phase == Phase::Terminated && r.0.failure == Some(StartupFailure::WindowError)
        }),
{
    let mut sup = Supervisor::new();
    let _ = sup.step(Event::StartProduction);
    let _ = sup.step(Event::DirectoriesReady(plan.dirs_ok));
    if !plan.dirs_ok {
        return (
            sup,
            StartupReport {
                spawn_attempts: 0,
                window_requests: 0,
                window_url: None,
                probe_elapsed_ms: None,
            },
        );
    }
    let _ = sup.step(Event::MigrationFinished(plan.migration));
    let port = choose_port(plan.allocated_port);
    let _ = sup.step(Event::PortChosen(port));
    let _ = sup.step(Event::SpawnFinished(plan.spawn_pid));
    if plan.spawn_pid.is_none() {
        return (
            sup,
            StartupReport {
                spawn_attempts: 1,
                window_requests: 0,
                window_url: None,
                probe_elapsed_ms: None,
            },
        );
    }
    let pr = probe_schedule(cfg, &plan.probe_outcomes);
    let _ = sup.step(Event::ProbeFinished(pr.ready));
    if !pr.ready {
        return (
            sup,
            StartupReport {
                spawn_attempts: 1,
                window_requests: 0,
                window_url: None,
                probe_elapsed_ms: Some(pr.elapsed_ms),
            },
        );
    }
    let url = sup.url();
    let _ = sup.step(Event::WindowShown(plan.window_ok));
    (
        sup,
        StartupReport {
            spawn_attempts: 1,
            window_requests: 1,
            window_url: Some(url),
            probe_elapsed_ms: Some(pr.elapsed_ms),
        },
    )
}

/// Once a child is tracked, the host-exit event empties the slot and
/// issues the termination signal exactly once: the step answers
/// `KillChild`, the signal count reaches one, and no later event raises it
/// again or tracks a new child.
pub proof fn lemma_host_exit_kills_exactly_once(s: Supervisor)
    requires
        s.wf(),
        s.slot.child is Some,
    ensures
        ({
            let (s1, a1) = spec_step(s, Event::HostExit);
            &&& a1 == Action::KillChild
            &&& s1.slot.child is None
            &&& s1.slot.kill_signals == 1
            &&& forall|e: Event| (#[trigger] spec_step(s1, e)).0.slot.kill_signals == 1
            &&& forall|e: Event| (#[trigger] spec_step(s1, e)).0.slot.child is None
        }),
{
    let (s1, a1) = spec_step(s, Event::HostExit);
    assert forall|e: Event| (#[trigger] spec_step(s1, e)).0.slot.kill_signals == 1
        && (#[trigger] spec_step(s1, e)).0.slot.child is None by {
        match e {
            Event::HostExit => {},
            _ => {},
        }
    }
}

/// A failed migration does not block the launch: whatever the outcome of
/// the one-shot migration run, the coordinator advances past it and the
/// next action is to choose the server's port.
pub proof fn lemma_migration_outcome_never_blocks(s: Supervisor, o: MigrationOutcome)
    requires
        s.phase == Phase::DirectoriesPrepared,
    ensures
        spec_step(s, Event::MigrationFinished(o)).0.phase == Phase::Migrated,
        spec_step(s, Event::MigrationFinished(o)).1 == Action::ChoosePort,
{
}

/// The window is requested only on the heels of a successful readiness
/// probe: the backend is never exposed to the user interface before its
/// endpoint accepted a connection.
pub proof fn lemma_window_only_after_readiness(s: Supervisor, e: Event)
    ensures
        spec_step(s, e).1 == Action::ShowWindow ==> e == Event::ProbeFinished(true) && (s.phase
            == Phase::AwaitingReadiness || s.phase == Phase::DevAttached),
{
}

/// A tracked child is never displaced: no step replaces one live child
/// with another, so one supervisor instance starts the backend at most
/// once.
pub proof fn lemma_child_never_replaced(s: Supervisor, e: Event)
    requires
        s.wf(),
        s.slot.child is Some,
    ensures
        spec_step(s, e).0.slot.child == s.slot.child || spec_step(s, e).0.slot.child is None,
{
}

} // verus!
