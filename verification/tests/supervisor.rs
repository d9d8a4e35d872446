use sidecar_supervisor::supervisor::{
    Liveness, ProbeDecision, SpawnOutcome, StartError, StartPlan, Supervisor,
};

#[test]
fn start_from_empty_spawns() {
    let mut sup = Supervisor::new();
    assert_eq!(sup.current_pid(), None);
    assert_eq!(sup.start_plan(), StartPlan::SpawnFresh);
    let r = sup.apply_spawn(SpawnOutcome::Spawned(100));
    assert_eq!(r, Ok(100));
    assert_eq!(sup.current_pid(), Some(100));
}

#[test]
fn second_start_refused_while_running() {
    let mut sup = Supervisor::new();
    sup.apply_spawn(SpawnOutcome::Spawned(100)).unwrap();
    // A second start request while the child still runs: probe, then refuse.
    assert_eq!(sup.start_plan(), StartPlan::ProbeChild(100));
    let d = sup.resolve_probe(Liveness::Running);
    assert_eq!(d, ProbeDecision::Refused(100));
    // The tracked child is unchanged: no duplicate was admitted.
    assert_eq!(sup.current_pid(), Some(100));
}

#[test]
fn repeated_starts_refused_while_running() {
    let mut sup = Supervisor::new();
    sup.apply_spawn(SpawnOutcome::Spawned(100)).unwrap();
    for _ in 0..5 {
        assert_eq!(sup.start_plan(), StartPlan::ProbeChild(100));
        assert_eq!(sup.resolve_probe(Liveness::Running), ProbeDecision::Refused(100));
        assert_eq!(sup.current_pid(), Some(100));
    }
}

#[test]
fn start_after_exit_spawns_replacement() {
    let mut sup = Supervisor::new();
    sup.apply_spawn(SpawnOutcome::Spawned(100)).unwrap();
    // The child exited (e.g. was terminated externally): the probe reports it.
    let d = sup.resolve_probe(Liveness::Exited);
    assert_eq!(d, ProbeDecision::Proceed);
    assert_eq!(sup.current_pid(), None);
    let r = sup.apply_spawn(SpawnOutcome::Spawned(101));
    assert_eq!(r, Ok(101));
    assert_eq!(sup.current_pid(), Some(101));
    assert_ne!(sup.current_pid(), Some(100));
}

#[test]
fn inconclusive_probe_spawns_replacement() {
    let mut sup = Supervisor::new();
    sup.apply_spawn(SpawnOutcome::Spawned(100)).unwrap();
    // A probe whose wait call itself errored is treated like an exit.
    assert_eq!(sup.resolve_probe(Liveness::Inconclusive), ProbeDecision::Proceed);
    assert_eq!(sup.current_pid(), None);
}

#[test]
fn stop_without_start_is_noop() {
    let mut sup = Supervisor::new();
    let t = sup.begin_stop();
    assert_eq!(t, None);
    assert_eq!(sup.current_pid(), None);
}

#[test]
fn stop_then_start_yields_fresh_child() {
    let mut sup = Supervisor::new();
    sup.apply_spawn(SpawnOutcome::Spawned(100)).unwrap();
    // Stop detaches the old child and clears the state at once.
    let t = sup.begin_stop();
    assert_eq!(t, Some(100));
    assert_eq!(sup.current_pid(), None);
    // The following start plans a fresh spawn: it never probes, and so never
    // waits on, the child being torn down.
    assert_eq!(sup.start_plan(), StartPlan::SpawnFresh);
    let r = sup.apply_spawn(SpawnOutcome::Spawned(101));
    assert_eq!(r, Ok(101));
    assert_ne!(sup.current_pid(), Some(100));
}

#[test]
fn stop_twice_is_safe() {
    let mut sup = Supervisor::new();
    sup.apply_spawn(SpawnOutcome::Spawned(100)).unwrap();
    assert_eq!(sup.begin_stop(), Some(100));
    // The second stop finds nothing and is a no-op.
    assert_eq!(sup.begin_stop(), None);
    assert_eq!(sup.current_pid(), None);
}

#[test]
fn stop_while_running_returns_at_once() {
    let mut sup = Supervisor::new();
    sup.apply_spawn(SpawnOutcome::Spawned(100)).unwrap();
    // The caller gets the detached PID back synchronously; teardown is the
    // host's background task, never awaited here.
    let t = sup.begin_stop();
    assert_eq!(t, Some(100));
    assert_eq!(sup.current_pid(), None);
}

#[test]
fn spawn_failure_surfaces_error_and_clears_state() {
    let mut sup = Supervisor::new();
    let os_error = String::from("No such file or directory (os error 2)");
    let r = sup.apply_spawn(SpawnOutcome::Failed(os_error.clone()));
    assert_eq!(r, Err(StartError::Spawn(os_error)));
    // No phantom handle is stored.
    assert_eq!(sup.current_pid(), None);
}

#[test]
fn spawn_failure_then_retry_succeeds() {
    let mut sup = Supervisor::new();
    let r = sup.apply_spawn(SpawnOutcome::Failed(String::from("No such file or directory (os error 2)")));
    assert!(matches!(r, Err(StartError::Spawn(_))));
    // The retry starts from a clean empty state and can succeed once the
    // executable is available.
    assert_eq!(sup.start_plan(), StartPlan::SpawnFresh);
    let r = sup.apply_spawn(SpawnOutcome::Spawned(102));
    assert_eq!(r, Ok(102));
    assert_eq!(sup.current_pid(), Some(102));
}
