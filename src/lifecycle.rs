//! The lifecycle coordinator: the one owner of the question "is the service
//! process still tracked", and the decisions taken on each lifecycle event.
//! The shell performs what the returned plans and actions say; nothing here
//! touches a process.

use vstd::prelude::*;
use crate::commands::SERVICE_PORT;
use crate::readiness::{
    PollAction, PollPhase, ProbeResult, ReadinessPoller, fresh_poller, poll_step,
};

verus! {

/// The target's family, which decides how a process tree is ended.
#[derive(Clone, Copy, Debug, PartialEq, Eq, Structural)]
pub enum Platform {
    /// No inherited process groups: a kernel job object guards the tree, and
    /// the tree is ended by identifier.
    Windows,
    /// The port that the service holds is reclaimed as the second step.
    Unix,
}

/// Status of the tracked service process.
#[derive(Clone, Copy, Debug, PartialEq, Eq, Structural)]
pub enum SidecarStatus {
    Starting,
    Running,
    Terminated,
}

/// The tracked service process: its identifier, captured once at spawn, and
/// its status. Its handle stays with the shell, which gives it up exactly
/// when a plan says to kill it.
#[derive(Clone, Copy, Debug, PartialEq, Eq, Structural)]
pub struct SidecarProcess {
    pub pid: u32,
    pub status: SidecarStatus,
}

/// The cleanup steps to perform, in this order. Every step is best effort: a
/// failure is logged and never stops the exit.
#[derive(Clone, Copy, Debug, PartialEq, Eq, Structural)]
pub struct CleanupPlan {
    /// Send a kill to the tracked process handle, giving the handle up.
    pub kill_handle: bool,
    /// End this process and its descendants, by identifier.
    pub tree_kill_pid: Option<u32>,
    /// End whatever process holds this port.
    pub reclaim_port: Option<u16>,
}

/// The plan that does nothing.
pub open spec fn no_cleanup() -> CleanupPlan {
    CleanupPlan { kill_handle: false, tree_kill_pid: None, reclaim_port: None }
}

/// The steps that end a live tracked process `pid`: its handle first, then its
/// tree by identifier on Windows, or the service port elsewhere.
pub open spec fn kill_plan_of(platform: Platform, pid: u32) -> CleanupPlan {
    CleanupPlan {
        kill_handle: true,
        tree_kill_pid: if platform == Platform::Windows { Some(pid) } else { None },
        reclaim_port: if platform == Platform::Windows { None } else { Some(SERVICE_PORT) },
    }
}

/// The plan when no process was ever tracked: reclaim the port, and only that.
pub open spec fn fallback_plan() -> CleanupPlan {
    CleanupPlan { kill_handle: false, tree_kill_pid: None, reclaim_port: Some(SERVICE_PORT) }
}

/// The process `sp` after a kill request, and the plan for it: a live process
/// is killed and becomes terminated; a terminated one is left as it is.
pub open spec fn kill_step(sp: SidecarProcess, platform: Platform) -> (SidecarProcess, CleanupPlan) {
    if sp.status == SidecarStatus::Terminated {
        (sp, no_cleanup())
    } else {
        (SidecarProcess { status: SidecarStatus::Terminated, ..sp }, kill_plan_of(platform, sp.pid))
    }
}

/// Phase of the application's lifecycle.
#[derive(Clone, Copy, Debug, PartialEq, Eq, Structural)]
pub enum Phase {
    Idle,
    Launching,
    AwaitingReady,
    Ready,
    ExitRequested,
    Exited,
}

/// The kernel group guard: a job whose members all die when its handle is
/// released, which happens at process exit whatever the cause.
#[derive(Clone, Copy, Debug, PartialEq, Eq, Structural)]
pub enum GuardState {
    /// Not (yet) asked for.
    Absent,
    /// Created, with the kill-on-release policy set.
    Active,
    /// Creation failed: the explicit kill paths are all that is left.
    Failed,
}

/// The backstop that ends the service even where none of the shell's own
/// exit code runs (a crash, a forced kill).
#[derive(Clone, Copy, Debug, PartialEq, Eq, Structural)]
pub enum Backstop {
    /// Create the kernel group guard, before the spawn.
    GroupGuard,
    /// Start the detached liveness sentinel, which reclaims the port once
    /// the shell has gone.
    Sentinel,
}

/// The backstop chosen on `platform`: the group guard where the kernel has
/// one, the sentinel elsewhere.
pub open spec fn backstop_of(platform: Platform) -> Backstop {
    if platform == Platform::Windows {
        Backstop::GroupGuard
    } else {
        Backstop::Sentinel
    }
}

/// What to do with a process just spawned, as to the group guard.
#[derive(Clone, Copy, Debug, PartialEq, Eq, Structural)]
pub enum GuardAssignment {
    /// Assign this process to the guard, at once.
    Assign(u32),
    /// No guard to assign to: warn and go on.
    Unguarded,
}

/// The two exit events of the host runtime.
#[derive(Clone, Copy, Debug, PartialEq, Eq, Structural)]
pub enum ExitEvent {
    ExitRequested,
    Exit,
}

/// Where a line or event of the service's output goes.
#[derive(Clone, Copy, Debug, PartialEq, Eq, Structural)]
pub enum OutputEventKind {
    Stdout,
    Stderr,
    Terminated,
    Other,
}

/// How an output event is handled.
#[derive(Clone, Copy, Debug, PartialEq, Eq, Structural)]
pub enum OutputRoute {
    /// Log the line at information level.
    Info,
    /// Log the line at error level.
    Error,
    /// Log the termination and stop reading.
    Stop,
    /// Skip it.
    Ignore,
}

/// The lifecycle coordinator's state.
#[derive(Clone, Copy, Debug)]
pub struct Coordinator {
    pub platform: Platform,
    pub phase: Phase,
    pub guard: GuardState,
    /// The tracked process, once registered.
    pub sidecar: Option<SidecarProcess>,
    pub poller: ReadinessPoller,
}

/// The coordinator `c` once the process `pid` is spawned and registered, and
/// what to do with it as to the guard: assign it where the guard is active.
pub open spec fn spawn_step(c: Coordinator, pid: u32) -> (Coordinator, GuardAssignment) {
    (
        Coordinator {
            phase: Phase::AwaitingReady,
            sidecar: Some(SidecarProcess { pid, status: SidecarStatus::Starting }),
            guard: if c.platform == Platform::Windows && c.guard == GuardState::Absent {
                GuardState::Failed
            } else {
                c.guard
            },
            ..c
        },
        if c.guard == GuardState::Active {
            GuardAssignment::Assign(pid)
        } else {
            GuardAssignment::Unguarded
        },
    )
}

/// The plan for the tracked process `sidecar` (if any) on an exit event, and
/// what becomes of it.
pub open spec fn cleanup_step(platform: Platform, sidecar: Option<SidecarProcess>) -> (
    Option<SidecarProcess>,
    CleanupPlan,
) {
    match sidecar {
        Some(sp) => {
            let (killed, plan) = kill_step(sp, platform);
            (Some(killed), plan)
        },
        None => (None, fallback_plan()),
    }
}

/// The phase after exit event `e` in phase `ph`.
pub open spec fn phase_after_exit(ph: Phase, e: ExitEvent) -> Phase {
    if e == ExitEvent::Exit || ph == Phase::Exited {
        Phase::Exited
    } else {
        Phase::ExitRequested
    }
}

/// The coordinator `c` after exit event `e`, and the plan performed for it.
pub open spec fn exit_step(c: Coordinator, e: ExitEvent) -> (Coordinator, CleanupPlan) {
    let (sc, plan) = cleanup_step(c.platform, c.sidecar);
    (Coordinator { phase: phase_after_exit(c.phase, e), sidecar: sc, ..c }, plan)
}

/// The coordinator `c` after the exit events `evs`, in order, and the plan of each.
pub open spec fn exit_run(c: Coordinator, evs: Seq<ExitEvent>) -> (Coordinator, Seq<CleanupPlan>)
    decreases evs.len(),
{
    if evs.len() == 0 {
        (c, Seq::empty())
    } else {
        let (c1, plan) = exit_step(c, evs[0]);
        let (last, rest) = exit_run(c1, evs.drop_first());
        (last, seq![plan] + rest)
    }
}

/// Where an output event of kind `k` goes.
pub open spec fn route_of(k: OutputEventKind) -> OutputRoute {
    match k {
        OutputEventKind::Stdout => OutputRoute::Info,
        OutputEventKind::Stderr => OutputRoute::Error,
        OutputEventKind::Terminated => OutputRoute::Stop,
        OutputEventKind::Other => OutputRoute::Ignore,
    }
}

/// Routes an output event of the service: standard output to the
/// information log, standard error to the error log; termination ends the
/// reading.
pub fn route_output(k: OutputEventKind) -> (r: OutputRoute)
    ensures
        r == route_of(k),
{
    match k {
        OutputEventKind::Stdout => OutputRoute::Info,
        OutputEventKind::Stderr => OutputRoute::Error,
        OutputEventKind::Terminated => OutputRoute::Stop,
        OutputEventKind::Other => OutputRoute::Ignore,
    }
}

impl Coordinator {
    /// The phase, the tracked process, the guard and the poller agree:
    /// nothing is tracked and nothing probed before the spawn; on Windows the
    /// guard is settled before a process is tracked; while awaiting readiness
    /// the process is starting, and once ready it is running; after an exit
    /// event the process, if any, is terminated.
    pub open spec fn wf(&self) -> bool {
        &&& self.poller.wf()
        &&& (self.phase == Phase::Idle || self.phase == Phase::Launching) ==> {
            &&& self.sidecar is None
            &&& self.poller == fresh_poller()
        }
        &&& self.phase == Phase::Idle ==> self.guard == GuardState::Absent
        &&& self.sidecar is Some && self.platform == Platform::Windows ==> self.guard != GuardState::Absent
        &&& self.phase == Phase::AwaitingReady ==> {
            &&& self.sidecar is Some
            &&& self.sidecar->Some_0.status == SidecarStatus::Starting
            &&& self.poller.phase != PollPhase::Ready
        }
        &&& self.phase == Phase::Ready ==> {
            &&& self.sidecar is Some
            &&& self.sidecar->Some_0.status == SidecarStatus::Running
            &&& self.poller.phase == PollPhase::Ready
        }
        &&& (self.phase == Phase::ExitRequested || self.phase == Phase::Exited) ==> match self.sidecar {
            Some(sp) => sp.status == SidecarStatus::Terminated,
            None => true,
        }
    }

    /// A coordinator for `platform`, before anything starts.
    pub fn new(platform: Platform) -> (r: Coordinator)
        ensures
            r.wf(),
            r.platform == platform,
            r.phase == Phase::Idle,
            r.guard == GuardState::Absent,
            r.sidecar is None,
            r.poller == fresh_poller(),
    {
        Coordinator {
            platform,
            phase: Phase::Idle,
            guard: GuardState::Absent,
            sidecar: None,
            poller: ReadinessPoller::new(),
        }
    }

    /// Application start: moves to launching, and says which backstop to set
    /// up before the spawn.
    pub fn start(&mut self) -> (b: Backstop)
        requires
            old(self).wf(),
            old(self).phase == Phase::Idle,
        ensures
            final(self).wf(),
            *final(self) == (Coordinator { phase: Phase::Launching, ..*old(self) }),
            b == backstop_of(old(self).platform),
    {
        self.phase = Phase::Launching;
        if self.platform == Platform::Windows {
            Backstop::GroupGuard
        } else {
            Backstop::Sentinel
        }
    }

    /// Records whether the group guard was created. The guard is decided once:
    /// a second report is ignored.
    pub fn on_guard_created(&mut self, created: bool)
        requires
            old(self).wf(),
            old(self).phase == Phase::Launching,
        ensures
            final(self).wf(),
            *final(self) == (Coordinator {
                guard: if old(self).guard != GuardState::Absent {
                    old(self).guard
                } else if created {
                    GuardState::Active
                } else {
                    GuardState::Failed
                },
                ..*old(self)
            }),
    {
        if self.guard == GuardState::Absent {
            self.guard = if created {
                GuardState::Active
            } else {
                GuardState::Failed
            };
        }
    }

    /// Registers the process just spawned with identifier `pid`, starts
    /// awaiting its readiness, and says whether to assign it to the guard.
    /// On Windows a guard never asked for counts as failed.
    pub fn on_spawned(&mut self, pid: u32) -> (a: GuardAssignment)
        requires
            old(self).wf(),
            old(self).phase == Phase::Launching,
        ensures
            final(self).wf(),
            (*final(self), a) == spawn_step(*old(self), pid),
    {
        if self.platform == Platform::Windows && self.guard == GuardState::Absent {
            self.guard = GuardState::Failed;
        }
        self.sidecar = Some(SidecarProcess::new(pid));
        self.phase = Phase::AwaitingReady;
        if self.guard == GuardState::Active {
            GuardAssignment::Assign(pid)
        } else {
            GuardAssignment::Unguarded
        }
    }

    /// Records one readiness probe. While readiness is awaited it is handed
    /// to the poller, and a display moves to ready with the process running;
    /// otherwise (already ready, given up, or exiting) no probe is wanted and
    /// `None` comes back.
    pub fn on_probe(&mut self, result: ProbeResult) -> (a: Option<PollAction>)
        requires
            old(self).wf(),
        ensures
            final(self).wf(),
            old(self).phase == Phase::AwaitingReady && old(self).poller.phase == PollPhase::Polling
                ==> {
                let (next_poller, act) = poll_step(old(self).poller, result);
                &&& a == Some(act)
                &&& final(self).poller == next_poller
                &&& final(self).phase == if act == PollAction::Display {
                    Phase::Ready
                } else {
                    Phase::AwaitingReady
                }
                &&& final(self).sidecar == if act == PollAction::Display {
                    Some(
                        SidecarProcess {
                            status: SidecarStatus::Running,
                            ..old(self).sidecar->Some_0
                        },
                    )
                } else {
                    old(self).sidecar
                }
                &&& final(self).platform == old(self).platform
                &&& final(self).guard == old(self).guard
            },
            !(old(self).phase == Phase::AwaitingReady && old(self).poller.phase
                == PollPhase::Polling) ==> a is None && *final(self) == *old(self),
    {
        if self.phase == Phase::AwaitingReady && self.poller.phase == PollPhase::Polling {
            let act = self.poller.on_probe(result);
            if act == PollAction::Display {
                self.phase = Phase::Ready;
                if let Some(sp) = self.sidecar {
                    self.sidecar = Some(SidecarProcess { status: SidecarStatus::Running, ..sp });
                }
            }
            Some(act)
        } else {
            None
        }
    }

    /// Handles an exit event: ends the tracked process the first time (a
    /// later event finds it terminated and does nothing), or reclaims the
    /// service port where no process was ever tracked. The phase moves to
    /// exit-requested, or to exited on the exit event itself, whatever the
    /// cleanup gives.
    pub fn on_exit_event(&mut self, e: ExitEvent) -> (plan: CleanupPlan)
        requires
            old(self).wf(),
        ensures
            final(self).wf(),
            (*final(self), plan) == exit_step(*old(self), e),
    {
        let plan = match self.sidecar {
            Some(sp) => {
                let mut killed = sp;
                let plan = killed.kill(self.platform);
                self.sidecar = Some(killed);
                plan
            },
            None => CleanupPlan { kill_handle: false, tree_kill_pid: None, reclaim_port: Some(SERVICE_PORT) },
        };
        self.phase = if e == ExitEvent::Exit || self.phase == Phase::Exited {
            Phase::Exited
        } else {
            Phase::ExitRequested
        };
        plan
    }
}

/// On Windows the group guard is settled before any process is spawned, and
/// a guard created then has the spawned process assigned to it at once, at
/// its registration, before the coordinator takes any other event. Where the
/// guard could not be created, the process is tracked all the same and left
/// to the explicit kill paths.
pub proof fn lemma_guard_settled_before_spawn(platform: Platform, created: bool, pid: u32)
    ensures
        ({
            let c0 = Coordinator {
                platform,
                phase: Phase::Launching,
                guard: GuardState::Absent,
                sidecar: None,
                poller: fresh_poller(),
            };
            let c1 = if platform == Platform::Windows {
                Coordinator {
                    guard: if created {
                        GuardState::Active
                    } else {
                        GuardState::Failed
                    },
                    ..c0
                }
            } else {
                c0
            };
            let (c2, a) = spawn_step(c1, pid);
            &&& c1.wf()
            &&& c2.wf()
            &&& c2.sidecar == Some(SidecarProcess { pid, status: SidecarStatus::Starting })
            &&& platform == Platform::Windows ==> c2.guard != GuardState::Absent
            &&& (platform == Platform::Windows && created) ==> a == GuardAssignment::Assign(pid)
            &&& !(platform == Platform::Windows && created) ==> a == GuardAssignment::Unguarded
        }),
{
}

/// Whatever exit events come, in whatever order, a tracked process that is
/// still alive is killed by the first one and by no other: the first plan
/// ends it, every later plan does nothing, and it stays terminated.
pub proof fn lemma_exit_kills_once(c: Coordinator, evs: Seq<ExitEvent>)
    requires
        c.wf(),
        c.sidecar is Some,
        c.sidecar->Some_0.status != SidecarStatus::Terminated,
        evs.len() >= 1,
    ensures
        ({
            let (last, plans) = exit_run(c, evs);
            &&& plans.len() == evs.len()
            &&& plans[0] == kill_plan_of(c.platform, c.sidecar->Some_0.pid)
            &&& forall|i: int| 1 <= i < plans.len() ==> #[trigger] plans[i] == no_cleanup()
            &&& forall|i: int| 0 <= i < plans.len() ==> (#[trigger] plans[i].kill_handle <==> i == 0)
            &&& last.sidecar == Some(
                SidecarProcess { status: SidecarStatus::Terminated, ..c.sidecar->Some_0 },
            )
            &&& last.phase != Phase::Idle
        }),
{
    let (c1, plan) = exit_step(c, evs[0]);
    lemma_terminated_exit_is_noop(c1, evs.drop_first());
    let (last, rest) = exit_run(c1, evs.drop_first());
    let plans = seq![plan] + rest;
    assert forall|i: int| 1 <= i < plans.len() implies #[trigger] plans[i] == no_cleanup() by {
        assert(plans[i] == rest[i - 1]);
    }
    if evs.len() == 1 {
        assert(last == c1);
    }
}

/// Exit events on a tracked process that is already terminated do nothing:
/// every plan is empty and the process is left as it is.
pub proof fn lemma_terminated_exit_is_noop(c: Coordinator, evs: Seq<ExitEvent>)
    requires
        c.sidecar is Some,
        c.sidecar->Some_0.status == SidecarStatus::Terminated,
    ensures
        ({
            let (last, plans) = exit_run(c, evs);
            &&& plans.len() == evs.len()
            &&& forall|i: int| 0 <= i < plans.len() ==> #[trigger] plans[i] == no_cleanup()
            &&& last.sidecar == c.sidecar
            &&& evs.len() > 0 ==> last.phase == Phase::Exited || last.phase == Phase::ExitRequested
        }),
    decreases evs.len(),
{
    if evs.len() > 0 {
        let (c1, plan) = exit_step(c, evs[0]);
        lemma_terminated_exit_is_noop(c1, evs.drop_first());
        let (last, rest) = exit_run(c1, evs.drop_first());
        let plans = seq![plan] + rest;
        assert forall|i: int| 0 <= i < plans.len() implies #[trigger] plans[i] == no_cleanup() by {
            if i > 0 {
                assert(plans[i] == rest[i - 1]);
            }
        }
    }
}

/// Where no process was ever registered, every exit event reclaims the
/// service port and does nothing else: there is no handle to kill and no
/// identifier to end a tree by.
pub proof fn lemma_untracked_exit_reclaims_port_only(c: Coordinator, evs: Seq<ExitEvent>)
    requires
        c.sidecar is None,
    ensures
        ({
            let (last, plans) = exit_run(c, evs);
            &&& plans.len() == evs.len()
            &&& forall|i: int| 0 <= i < plans.len() ==> #[trigger] plans[i] == fallback_plan()
            &&& forall|i: int| 0 <= i < plans.len() ==> !(#[trigger] plans[i]).kill_handle
                && plans[i].tree_kill_pid is None && plans[i].reclaim_port == Some(SERVICE_PORT)
            &&& last.sidecar is None
        }),
    decreases evs.len(),
{
    if evs.len() > 0 {
        let (c1, plan) = exit_step(c, evs[0]);
        lemma_untracked_exit_reclaims_port_only(c1, evs.drop_first());
        let (last, rest) = exit_run(c1, evs.drop_first());
        let plans = seq![plan] + rest;
        assert forall|i: int| 0 <= i < plans.len() implies #[trigger] plans[i] == fallback_plan() by {
            if i > 0 {
                assert(plans[i] == rest[i - 1]);
            }
        }
    }
}

impl SidecarProcess {
    /// A process just spawned with identifier `pid`.
    pub fn new(pid: u32) -> (r: SidecarProcess)
        ensures
            r == (SidecarProcess { pid, status: SidecarStatus::Starting }),
    {
        SidecarProcess { pid, status: SidecarStatus::Starting }
    }

    /// Decides the kill of this process. The first request on a live process
    /// kills it and marks it terminated; every later request is a no-op.
    pub fn kill(&mut self, platform: Platform) -> (plan: CleanupPlan)
        ensures
            (*final(self), plan) == kill_step(*old(self), platform),
    {
        if self.status == SidecarStatus::Terminated {
            CleanupPlan { kill_handle: false, tree_kill_pid: None, reclaim_port: None }
        } else {
            self.status = SidecarStatus::Terminated;
            if platform == Platform::Windows {
                CleanupPlan { kill_handle: true, tree_kill_pid: Some(self.pid), reclaim_port: None }
            } else {
                CleanupPlan {
                    kill_handle: true,
                    tree_kill_pid: None,
                    reclaim_port: Some(SERVICE_PORT),
                }
            }
        }
    }
}

} // verus!
