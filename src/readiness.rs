//! The readiness poller: after launch the service's health endpoint is probed
//! at a fixed interval, up to a fixed number of times. Each probe result is
//! handed to [`ReadinessPoller::on_probe`], which says what to do next.

use vstd::prelude::*;

verus! {

/// Most probes issued before the poller gives up.
pub const MAX_PROBES: u32 = 60;

/// Pause between two probes, in milliseconds.
pub const PROBE_INTERVAL_MS: u64 = 500;

/// Outcome of one probe of the health endpoint.
#[derive(Clone, Copy, Debug, PartialEq, Eq, Structural)]
pub enum ProbeResult {
    /// A 2xx answer.
    Ready,
    /// An answer of any other status.
    NotReady,
    /// No answer: connection refused, reset, or timed out.
    Unreachable,
}

/// Where the poller stands.
#[derive(Clone, Copy, Debug, PartialEq, Eq, Structural)]
pub enum PollPhase {
    Polling,
    Ready,
    Failed,
}

/// What the caller does after a probe.
#[derive(Clone, Copy, Debug, PartialEq, Eq, Structural)]
pub enum PollAction {
    /// Show the service: navigate the window to it. Polling is over.
    Display,
    /// Probe again after this many milliseconds.
    RetryAfter(u64),
    /// Report that the service did not start in time. Polling is over; the
    /// service is left running.
    ReportFailure,
}

/// Counts probes and decides, after each, whether to display, wait or give up.
#[derive(Clone, Copy, Debug)]
pub struct ReadinessPoller {
    /// Probes issued so far.
    pub attempts: u32,
    pub phase: PollPhase,
}

/// Whether the probe result counts as success.
pub open spec fn is_ready(r: ProbeResult) -> bool {
    r == ProbeResult::Ready
}

/// The result of a probe that got an answer with HTTP status `status`.
pub open spec fn probe_result_of_status(status: int) -> ProbeResult {
    if 200 <= status <= 299 {
        ProbeResult::Ready
    } else {
        ProbeResult::NotReady
    }
}

/// The phase after a probe with result `r`, when `attempts` probes came before it.
pub open spec fn phase_after(attempts: nat, r: ProbeResult) -> PollPhase {
    if is_ready(r) {
        PollPhase::Ready
    } else if attempts + 1 >= MAX_PROBES {
        PollPhase::Failed
    } else {
        PollPhase::Polling
    }
}

/// The action after a probe with result `r`, when `attempts` probes came before it.
pub open spec fn action_after(attempts: nat, r: ProbeResult) -> PollAction {
    if is_ready(r) {
        PollAction::Display
    } else if attempts + 1 >= MAX_PROBES {
        PollAction::ReportFailure
    } else {
        PollAction::RetryAfter(PROBE_INTERVAL_MS)
    }
}

/// One probe handled by the poller `p`.
pub open spec fn poll_step(p: ReadinessPoller, r: ProbeResult) -> (ReadinessPoller, PollAction) {
    (
        ReadinessPoller {
            attempts: (p.attempts + 1) as u32,
            phase: phase_after(p.attempts as nat, r),
        },
        action_after(p.attempts as nat, r),
    )
}

/// The poller `p` fed the probe results `results` in order, for as long as it
/// asks for probes: the poller at the end, and the action after each probe
/// that it took.
pub open spec fn drive(p: ReadinessPoller, results: Seq<ProbeResult>) -> (ReadinessPoller, Seq<PollAction>)
    decreases results.len(),
{
    if p.phase != PollPhase::Polling || results.len() == 0 {
        (p, Seq::empty())
    } else {
        let (q, a) = poll_step(p, results[0]);
        let (last, rest) = drive(q, results.drop_first());
        (last, seq![a] + rest)
    }
}

/// A poller before its first probe.
pub open spec fn fresh_poller() -> ReadinessPoller {
    ReadinessPoller { attempts: 0, phase: PollPhase::Polling }
}

impl ReadinessPoller {
    /// The attempt count and the phase agree: the poller polls only below the
    /// bound, has failed only at it, and is ready only after some probe.
    pub open spec fn wf(&self) -> bool {
        &&& self.attempts <= MAX_PROBES
        &&& self.phase == PollPhase::Polling ==> self.attempts < MAX_PROBES
        &&& self.phase == PollPhase::Failed ==> self.attempts == MAX_PROBES
        &&& self.phase == PollPhase::Ready ==> self.attempts >= 1
    }

    /// A poller before its first probe.
    pub fn new() -> (r: ReadinessPoller)
        ensures
            r == fresh_poller(),
            r.wf(),
    {
        ReadinessPoller { attempts: 0, phase: PollPhase::Polling }
    }

    /// Whether another probe is to be issued.
    pub fn wants_probe(&self) -> (r: bool)
        ensures
            r == (self.phase == PollPhase::Polling),
    {
        self.phase == PollPhase::Polling
    }

    /// Records the result of one probe and says what to do next.
    pub fn on_probe(&mut self, result: ProbeResult) -> (a: PollAction)
        requires
            old(self).wf(),
            old(self).phase == PollPhase::Polling,
        ensures
            final(self).wf(),
            (*final(self), a) == poll_step(*old(self), result),
    {
        self.attempts = self.attempts + 1;
        if result == ProbeResult::Ready {
            self.phase = PollPhase::Ready;
            PollAction::Display
        } else if self.attempts >= MAX_PROBES {
            self.phase = PollPhase::Failed;
            PollAction::ReportFailure
        } else {
            self.phase = PollPhase::Polling;
            PollAction::RetryAfter(PROBE_INTERVAL_MS)
        }
    }
}

/// The result of a probe answered with HTTP status `status`: ready on any
/// 2xx status, not ready on any other.
pub fn probe_result_from_status(status: u16) -> (r: ProbeResult)
    ensures
        r == probe_result_of_status(status as int),
{
    if 200 <= status && status <= 299 {
        ProbeResult::Ready
    } else {
        ProbeResult::NotReady
    }
}

/// What holds of every run of a well-formed poller, by induction on the
/// probe results.
proof fn lemma_drive(p: ReadinessPoller, results: Seq<ProbeResult>)
    requires
        p.wf(),
    ensures
        ({
            let (q, acts) = drive(p, results);
            &&& q.wf()
            &&& acts.len() <= results.len()
            &&& p.phase != PollPhase::Polling ==> acts.len() == 0 && q == p
            &&& p.phase == PollPhase::Polling ==> acts.len() <= MAX_PROBES - p.attempts
            &&& q.attempts == p.attempts + acts.len()
            &&& q.phase == PollPhase::Polling ==> acts.len() == results.len()
            &&& forall|i: int|
                0 <= i < acts.len() - 1 ==> #[trigger] acts[i] == PollAction::RetryAfter(
                    PROBE_INTERVAL_MS,
                ) && !is_ready(results[i])
            &&& acts.len() > 0 ==> acts.last() == action_after(
                (q.attempts - 1) as nat,
                results[acts.len() - 1],
            ) && q.phase == phase_after((q.attempts - 1) as nat, results[acts.len() - 1])
        }),
    decreases results.len(),
{
    if p.phase != PollPhase::Polling || results.len() == 0 {
    } else {
        let (q, a) = poll_step(p, results[0]);
        lemma_drive(q, results.drop_first());
        let (last, rest) = drive(q, results.drop_first());
        let acts = seq![a] + rest;
        assert forall|i: int| 0 <= i < acts.len() - 1 implies #[trigger] acts[i]
            == PollAction::RetryAfter(PROBE_INTERVAL_MS) && !is_ready(results[i]) by {
            if i > 0 {
                assert(acts[i] == rest[i - 1]);
                assert(results.drop_first()[i - 1] == results[i]);
            }
        }
        if rest.len() > 0 {
            assert(acts.last() == rest.last());
            assert(results.drop_first()[rest.len() - 1] == results[acts.len() - 1]);
        }
    }
}

/// A run of the poller from its start issues at most [`MAX_PROBES`] probes,
/// at least one when a probe can be made, waits [`PROBE_INTERVAL_MS`] (500 ms)
/// before each probe after the first, and issues none after the first success:
/// a ready result can only be the last one taken, and then the poller displays.
pub proof fn lemma_probes_bounded_and_spaced(results: Seq<ProbeResult>)
    ensures
        ({
            let (q, acts) = drive(fresh_poller(), results);
            &&& acts.len() <= MAX_PROBES
            &&& results.len() > 0 ==> acts.len() >= 1
            &&& PROBE_INTERVAL_MS >= 500
            &&& forall|i: int|
                0 <= i < acts.len() - 1 ==> #[trigger] acts[i] == PollAction::RetryAfter(
                    PROBE_INTERVAL_MS,
                )
            &&& forall|i: int|
                0 <= i < acts.len() && is_ready(#[trigger] results[i]) ==> i == acts.len() - 1
                    && acts[i] == PollAction::Display && q.phase == PollPhase::Ready
        }),
{
    let p = fresh_poller();
    lemma_drive(p, results);
    if results.len() > 0 {
        let (q, a) = poll_step(p, results[0]);
        lemma_drive(q, results.drop_first());
    }
}

/// Where the first ready result is the `k`-th and comes within the bound, the
/// poller takes exactly `k + 1` probes and displays once, after the last.
pub proof fn lemma_first_success_displays_once(results: Seq<ProbeResult>, k: int)
    requires
        0 <= k < MAX_PROBES,
        k < results.len(),
        is_ready(results[k]),
        forall|i: int| 0 <= i < k ==> !is_ready(#[trigger] results[i]),
    ensures
        ({
            let (q, acts) = drive(fresh_poller(), results);
            &&& acts.len() == k + 1
            &&& acts[k] == PollAction::Display
            &&& forall|i: int| 0 <= i < k ==> #[trigger] acts[i] != PollAction::Display
            &&& q.phase == PollPhase::Ready
        }),
{
    let p = fresh_poller();
    lemma_drive(p, results);
    let (q, acts) = drive(p, results);
    if acts.len() < k + 1 {
        // the poller stopped early: only on a failure at the bound, or on a ready result
        assert(acts.len() > 0 ==> !is_ready(results[acts.len() - 1]));
    }
    lemma_probes_bounded_and_spaced(results);
}

/// Where no probe succeeds within the bound, the poller gives up after
/// exactly [`MAX_PROBES`] probes and reports the failure: it never waits forever.
pub proof fn lemma_gives_up_at_bound(results: Seq<ProbeResult>)
    requires
        results.len() >= MAX_PROBES,
        forall|i: int| 0 <= i < MAX_PROBES ==> !is_ready(#[trigger] results[i]),
    ensures
        ({
            let (q, acts) = drive(fresh_poller(), results);
            &&& acts.len() == MAX_PROBES
            &&& acts.last() == PollAction::ReportFailure
            &&& q.phase == PollPhase::Failed
        }),
{
    let p = fresh_poller();
    lemma_drive(p, results);
}

} // verus!
