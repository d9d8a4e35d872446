//! The supervisor state machine.
//!
//! The supervisor owns at most one child-process handle, modelled by the PID
//! it tracks. Its operations are split at the points where the host must act
//! on the operating system: a start request first yields a [`StartPlan`]
//! (spawn at once, or probe the tracked child), the probe's report is resolved
//! into a [`ProbeDecision`], and the outcome of an attempted spawn is applied
//! to the state. A stop request clears the state immediately and hands the
//! detached PID back, so that teardown can run in the background while a
//! following start request already sees an empty supervisor.

use vstd::prelude::*;

verus! {

/// Report of the non-blocking liveness probe on the tracked child.
///
/// `Inconclusive` stands for a probe whose underlying wait call itself
/// errored; the supervisor treats it like `Exited` and spawns a replacement.
#[derive(Clone, Copy, Debug, PartialEq, Eq, Structural)]
pub enum Liveness {
    Running,
    Exited,
    Inconclusive,
}

/// First step of a start request: spawn at once when nothing is tracked,
/// otherwise probe the tracked child before deciding.
#[derive(Clone, Copy, Debug, PartialEq, Eq, Structural)]
pub enum StartPlan {
    SpawnFresh,
    ProbeChild(u32),
}

/// Decision taken once the probe has reported: refuse the start request
/// because the child still runs, or proceed to spawn a replacement.
#[derive(Clone, Copy, Debug, PartialEq, Eq, Structural)]
pub enum ProbeDecision {
    Refused(u32),
    Proceed,
}

/// What the operating system reported for a spawn attempt, as plain values:
/// the new child's PID, or the OS error text.
#[derive(Clone, Debug, PartialEq, Eq)]
pub enum SpawnOutcome {
    Spawned(u32),
    Failed(String),
}

/// The error kinds a start request can surface to its caller.
#[derive(Clone, Debug, PartialEq, Eq)]
pub enum StartError {
    /// The supervisor's lock is unusable (poisoned); fatal to the call.
    Lock,
    /// The tracked child is still alive; carries its PID.
    AlreadyRunning(u32),
    /// The operating system failed to create the process; carries its error text.
    Spawn(String),
}

/// How a start request opens, as a function of the tracked child.
pub open spec fn spec_start_plan(child: Option<u32>) -> StartPlan {
    match child {
        None => StartPlan::SpawnFresh,
        Some(pid) => StartPlan::ProbeChild(pid),
    }
}

/// How a probe report resolves: the new tracked child and the decision.
/// A running child is kept and the request refused with its PID; an exited or
/// inconclusive child is dropped so that a replacement can be spawned.
pub open spec fn spec_probe_decision(child: Option<u32>, live: Liveness) -> (Option<u32>, ProbeDecision)
    recommends
        child is Some,
{
    match (child, live) {
        (Some(pid), Liveness::Running) => (child, ProbeDecision::Refused(pid)),
        _ => (None, ProbeDecision::Proceed),
    }
}

/// How a spawn outcome updates the (empty) supervisor: a spawned PID is
/// installed, a failure leaves nothing tracked and surfaces the OS error.
pub open spec fn spec_apply_spawn(outcome: SpawnOutcome) -> (Option<u32>, Result<u32, StartError>) {
    match outcome {
        SpawnOutcome::Spawned(pid) => (Some(pid), Ok(pid)),
        SpawnOutcome::Failed(msg) => (None, Err(StartError::Spawn(msg))),
    }
}

/// How a stop request acts: the supervisor is cleared at once, and whatever
/// was tracked is handed out for detached teardown.
pub open spec fn spec_stop(child: Option<u32>) -> (Option<u32>, Option<u32>) {
    (None, child)
}

/// Supervisor of the single sidecar process. It tracks at most one child,
/// by construction: the state is the PID of the tracked child, or nothing.
pub struct Supervisor {
    child: Option<u32>,
}

impl Supervisor {
    /// The PID of the tracked child, if one is tracked.
    pub closed spec fn spec_child(self) -> Option<u32> {
        self.child
    }

    /// A fresh supervisor tracks no child.
    pub fn new() -> (s: Supervisor)
        ensures
            s.spec_child() is None,
    {
        Supervisor { child: None }
    }

    /// The tracked PID, for diagnostics.
    pub fn current_pid(&self) -> (r: Option<u32>)
        ensures
            r == self.spec_child(),
    {
        self.child
    }

    /// Open a start request: spawn at once when nothing is tracked, otherwise
    /// name the PID the host must probe first.
    pub fn start_plan(&self) -> (p: StartPlan)
        ensures
            p == spec_start_plan(self.spec_child()),
    {
        match self.child {
            None => StartPlan::SpawnFresh,
            Some(pid) => StartPlan::ProbeChild(pid),
        }
    }

    /// Resolve the probe's report on the tracked child. A running child is
    /// kept and the request refused with its PID; otherwise the stale handle
    /// is dropped and the caller proceeds to spawn a replacement.
    pub fn resolve_probe(&mut self, live: Liveness) -> (d: ProbeDecision)
        requires
            old(self).spec_child() is Some,
        ensures
            final(self).spec_child() == spec_probe_decision(old(self).spec_child(), live).0,
            d == spec_probe_decision(old(self).spec_child(), live).1,
    {
        match (self.child, live) {
            (Some(pid), Liveness::Running) => ProbeDecision::Refused(pid),
            _ => {
                self.child = None;
                ProbeDecision::Proceed
            },
        }
    }

    /// Apply the outcome of a spawn attempt. A spawned child is installed and
    /// its PID returned; a failure leaves the supervisor empty — the caller is
    /// never left holding a phantom handle — and surfaces the OS error.
    pub fn apply_spawn(&mut self, outcome: SpawnOutcome) -> (r: Result<u32, StartError>)
        requires
            old(self).spec_child() is None,
        ensures
            final(self).spec_child() == spec_apply_spawn(outcome).0,
            r == spec_apply_spawn(outcome).1,
    {
        match outcome {
            SpawnOutcome::Spawned(pid) => {
                self.child = Some(pid);
                Ok(pid)
            },
            SpawnOutcome::Failed(msg) => {
                self.child = None;
                Err(StartError::Spawn(msg))
            },
        }
    }

    /// Begin a stop request: clear the supervisor immediately and hand back
    /// the PID to tear down, if any. The caller detaches the blocking kill
    /// and reap; this call itself never waits on the child. With nothing
    /// tracked it is a no-op.
    pub fn begin_stop(&mut self) -> (t: Option<u32>)
        ensures
            final(self).spec_child() is None,
            t == old(self).spec_child(),
            (final(self).spec_child(), t) == spec_stop(old(self).spec_child()),
    {
        let t = self.child;
        self.child = None;
        t
    }
}

/// The tracked child after `n` start requests were resolved while the probe
/// kept reporting the child as running.
pub open spec fn starts_while_running(child: Option<u32>, n: nat) -> Option<u32>
    decreases n,
{
    if n == 0 {
        child
    } else {
        spec_probe_decision(starts_while_running(child, (n - 1) as nat), Liveness::Running).0
    }
}

/// At most one process is ever live under the supervisor: any sequence of
/// start requests with no intervening stop, made while the first child still
/// runs, leaves that same child tracked, and each such request is refused
/// with its PID instead of spawning a duplicate.
pub proof fn law_at_most_one_live(pid: u32, n: nat)
    ensures
        starts_while_running(Some(pid), n) == Some(pid),
        n > 0 ==> spec_probe_decision(
            starts_while_running(Some(pid), (n - 1) as nat),
            Liveness::Running,
        ).1 == ProbeDecision::Refused(pid),
    decreases n,
{
    if n > 0 {
        law_at_most_one_live(pid, (n - 1) as nat);
    }
}

/// After the tracked child has exited, a start request proceeds: the stale
/// handle is dropped, and a successful spawn installs the new PID — the
/// supervisor ends up tracking exactly the replacement.
pub proof fn law_restart_after_exit(pid: u32, new_pid: u32)
    ensures
        spec_probe_decision(Some(pid), Liveness::Exited) == (None::<u32>, ProbeDecision::Proceed),
        spec_apply_spawn(SpawnOutcome::Spawned(new_pid)) == (
            Some(new_pid),
            Ok::<u32, StartError>(new_pid),
        ),
{
}

/// A stop request with nothing ever started is a no-op: nothing is handed out
/// for teardown and the supervisor stays empty.
pub proof fn law_stop_never_started()
    ensures
        spec_stop(None) == (None::<u32>, None::<u32>),
{
}

/// Stopping twice in a row is safe: whatever the first stop detached, the
/// second one finds nothing and is a no-op.
pub proof fn law_stop_twice(child: Option<u32>)
    ensures
        spec_stop(spec_stop(child).0) == (None::<u32>, None::<u32>),
{
}

/// A stop followed immediately by a start never touches the stopped child:
/// the stop clears the state and detaches the old PID, the following start
/// therefore plans a fresh spawn — it probes nothing and cannot block on the
/// old process — and a successful spawn installs the new PID.
pub proof fn law_stop_then_start(child: Option<u32>, new_pid: u32)
    ensures
        spec_stop(child).0 is None,
        spec_stop(child).1 == child,
        spec_start_plan(spec_stop(child).0) == StartPlan::SpawnFresh,
        spec_apply_spawn(SpawnOutcome::Spawned(new_pid)).0 == Some(new_pid),
{
}

/// A failed spawn leaves the supervisor in the empty state and surfaces the
/// OS error; the next start request therefore retries the spawn from scratch
/// and can succeed.
pub proof fn law_retry_after_spawn_failure(msg: String, new_pid: u32)
    ensures
        spec_apply_spawn(SpawnOutcome::Failed(msg)).0 is None,
        spec_apply_spawn(SpawnOutcome::Failed(msg)).1 == Err::<u32, StartError>(
            StartError::Spawn(msg),
        ),
        spec_start_plan(spec_apply_spawn(SpawnOutcome::Failed(msg)).0) == StartPlan::SpawnFresh,
        spec_apply_spawn(SpawnOutcome::Spawned(new_pid)).1 == Ok::<u32, StartError>(new_pid),
{
}

} // verus!
