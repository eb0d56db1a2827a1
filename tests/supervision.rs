use doctorfill::lifecycle::{
    route_output, Backstop, CleanupPlan, Coordinator, ExitEvent, GuardAssignment, GuardState,
    OutputEventKind, OutputRoute, Phase, Platform, SidecarProcess, SidecarStatus,
};
use doctorfill::readiness::{
    probe_result_from_status, PollAction, PollPhase, ProbeResult, ReadinessPoller, MAX_PROBES,
    PROBE_INTERVAL_MS,
};

fn launched(platform: Platform, guard_created: Option<bool>, pid: u32) -> (Coordinator, GuardAssignment) {
    let mut c = Coordinator::new(platform);
    let backstop = c.start();
    assert_eq!(backstop == Backstop::GroupGuard, platform == Platform::Windows);
    if let Some(ok) = guard_created {
        c.on_guard_created(ok);
    }
    let a = c.on_spawned(pid);
    (c, a)
}

#[test]
fn probe_fails_three_times_then_displays_once() {
    let (mut c, _) = launched(Platform::Unix, None, 77);
    let mut probes = 0;
    let mut displays = 0;
    let results = [
        ProbeResult::Unreachable,
        ProbeResult::Unreachable,
        ProbeResult::Unreachable,
        ProbeResult::Ready,
        ProbeResult::Ready,
        ProbeResult::Ready,
    ];
    for r in results {
        if !c.poller.wants_probe() {
            break;
        }
        probes += 1;
        match c.on_probe(r) {
            Some(PollAction::Display) => displays += 1,
            Some(PollAction::RetryAfter(ms)) => assert_eq!(ms, 500),
            other => panic!("unexpected {:?}", other),
        }
    }
    assert_eq!(probes, 4);
    assert_eq!(displays, 1);
    assert_eq!(c.phase, Phase::Ready);
    assert_eq!(c.sidecar.unwrap().status, SidecarStatus::Running);
    assert_eq!(c.on_probe(ProbeResult::Ready), None);
}

#[test]
fn unguarded_sidecar_is_killed_once_by_identifier() {
    let (mut c, a) = launched(Platform::Windows, Some(false), 4242);
    assert_eq!(c.guard, GuardState::Failed);
    assert_eq!(a, GuardAssignment::Unguarded);
    let first = c.on_exit_event(ExitEvent::ExitRequested);
    assert_eq!(
        first,
        CleanupPlan { kill_handle: true, tree_kill_pid: Some(4242), reclaim_port: None }
    );
    assert_eq!(c.sidecar.unwrap().status, SidecarStatus::Terminated);
    assert_eq!(c.phase, Phase::ExitRequested);
    let second = c.on_exit_event(ExitEvent::Exit);
    assert_eq!(
        second,
        CleanupPlan { kill_handle: false, tree_kill_pid: None, reclaim_port: None }
    );
    assert_eq!(c.phase, Phase::Exited);
}

#[test]
fn unregistered_sidecar_exit_reclaims_port_only() {
    let mut c = Coordinator::new(Platform::Unix);
    c.start();
    let plan = c.on_exit_event(ExitEvent::Exit);
    assert_eq!(
        plan,
        CleanupPlan { kill_handle: false, tree_kill_pid: None, reclaim_port: Some(8000) }
    );
    assert_eq!(c.phase, Phase::Exited);
    assert!(c.sidecar.is_none());
}

#[test]
fn exit_requested_then_exit_kills_once_on_unix() {
    let (mut c, a) = launched(Platform::Unix, None, 9);
    assert_eq!(a, GuardAssignment::Unguarded);
    let first = c.on_exit_event(ExitEvent::ExitRequested);
    assert_eq!(
        first,
        CleanupPlan { kill_handle: true, tree_kill_pid: None, reclaim_port: Some(8000) }
    );
    let second = c.on_exit_event(ExitEvent::Exit);
    assert!(!second.kill_handle);
    assert_eq!(second.tree_kill_pid, None);
    let third = c.on_exit_event(ExitEvent::ExitRequested);
    assert!(!third.kill_handle);
    assert_eq!(c.phase, Phase::Exited);
}

#[test]
fn guard_created_before_spawn_gets_the_process_assigned() {
    let (c, a) = launched(Platform::Windows, Some(true), 314);
    assert_eq!(c.guard, GuardState::Active);
    assert_eq!(a, GuardAssignment::Assign(314));
    assert_eq!(c.phase, Phase::AwaitingReady);
    assert_eq!(c.sidecar, Some(SidecarProcess { pid: 314, status: SidecarStatus::Starting }));
}

#[test]
fn each_platform_gets_a_backstop() {
    let mut w = Coordinator::new(Platform::Windows);
    assert_eq!(w.start(), Backstop::GroupGuard);
    let mut u = Coordinator::new(Platform::Unix);
    assert_eq!(u.start(), Backstop::Sentinel);
    assert_eq!(u.phase, Phase::Launching);
}

#[test]
fn guard_is_decided_once() {
    let mut c = Coordinator::new(Platform::Windows);
    c.start();
    c.on_guard_created(false);
    c.on_guard_created(true);
    assert_eq!(c.guard, GuardState::Failed);
}

#[test]
fn windows_spawn_without_guard_report_counts_as_failed() {
    let (c, a) = launched(Platform::Windows, None, 5);
    assert_eq!(c.guard, GuardState::Failed);
    assert_eq!(a, GuardAssignment::Unguarded);
}

#[test]
fn poller_gives_up_after_sixty_probes() {
    let mut p = ReadinessPoller::new();
    let mut probes: u32 = 0;
    let mut last = None;
    while p.wants_probe() {
        probes += 1;
        last = Some(p.on_probe(ProbeResult::NotReady));
        assert!(probes <= 60);
    }
    assert_eq!(MAX_PROBES, 60);
    assert_eq!(probes, 60);
    assert_eq!(last, Some(PollAction::ReportFailure));
    assert_eq!(p.phase, PollPhase::Failed);
}

#[test]
fn poller_waits_half_a_second_between_probes() {
    let mut p = ReadinessPoller::new();
    assert_eq!(PROBE_INTERVAL_MS, 500);
    assert_eq!(p.on_probe(ProbeResult::NotReady), PollAction::RetryAfter(500));
    assert_eq!(p.attempts, 1);
    assert_eq!(p.phase, PollPhase::Polling);
}

#[test]
fn poller_displays_on_first_probe() {
    let mut p = ReadinessPoller::new();
    assert_eq!(p.on_probe(ProbeResult::Ready), PollAction::Display);
    assert!(!p.wants_probe());
    assert_eq!(p.attempts, 1);
}

#[test]
fn poller_displays_on_the_last_allowed_probe() {
    let mut p = ReadinessPoller::new();
    for _ in 0..59 {
        assert_eq!(p.on_probe(ProbeResult::Unreachable), PollAction::RetryAfter(500));
    }
    assert_eq!(p.on_probe(ProbeResult::Ready), PollAction::Display);
    assert_eq!(p.phase, PollPhase::Ready);
}

#[test]
fn failed_readiness_leaves_the_process_running() {
    let (mut c, _) = launched(Platform::Unix, None, 11);
    for _ in 0..60 {
        c.on_probe(ProbeResult::NotReady);
    }
    assert_eq!(c.poller.phase, PollPhase::Failed);
    assert_eq!(c.phase, Phase::AwaitingReady);
    assert_eq!(c.sidecar.unwrap().status, SidecarStatus::Starting);
    assert_eq!(c.on_probe(ProbeResult::Ready), None);
}

#[test]
fn status_codes_map_to_probe_results() {
    assert_eq!(probe_result_from_status(200), ProbeResult::Ready);
    assert_eq!(probe_result_from_status(204), ProbeResult::Ready);
    assert_eq!(probe_result_from_status(299), ProbeResult::Ready);
    assert_eq!(probe_result_from_status(199), ProbeResult::NotReady);
    assert_eq!(probe_result_from_status(300), ProbeResult::NotReady);
    assert_eq!(probe_result_from_status(503), ProbeResult::NotReady);
}

#[test]
fn sidecar_kill_is_idempotent() {
    let mut sp = SidecarProcess::new(21);
    let first = sp.kill(Platform::Windows);
    assert!(first.kill_handle);
    assert_eq!(first.tree_kill_pid, Some(21));
    let second = sp.kill(Platform::Windows);
    assert_eq!(
        second,
        CleanupPlan { kill_handle: false, tree_kill_pid: None, reclaim_port: None }
    );
    assert_eq!(sp.status, SidecarStatus::Terminated);
}

#[test]
fn output_events_are_routed_by_stream() {
    assert_eq!(route_output(OutputEventKind::Stdout), OutputRoute::Info);
    assert_eq!(route_output(OutputEventKind::Stderr), OutputRoute::Error);
    assert_eq!(route_output(OutputEventKind::Terminated), OutputRoute::Stop);
    assert_eq!(route_output(OutputEventKind::Other), OutputRoute::Ignore);
}
