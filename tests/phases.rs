use kubelet_phases::machine::{Directive, PodMachine};
use kubelet_phases::phase::{Completed, Error, Phase, Run, Transition, VolumeMount};
use kubelet_phases::pod::{PodState, VolumeRef};
use kubelet_phases::shared::SharedState;
use kubelet_phases::status::{make_status, LifecycleCategory};
use kubelet_phases::steps::{Action, Outcome};

fn one_volume() -> Vec<VolumeRef> {
    vec![VolumeRef {
        name: "config".to_string(),
        mount: "/var/lib/kubelet/volumes/config".to_string(),
    }]
}

#[test]
fn volume_resolution_success() {
    let mut pod_state = PodState::new();
    let t = VolumeMount::default().next(&mut pod_state, Ok(one_volume()));
    assert!(!t.is_complete());
    match t.into_parts() {
        Ok(Phase::Run(_)) => {}
        other => panic!("expected the run phase, got {:?}", other),
    }
    assert_eq!(pod_state.volume_count(), 1);
    assert_eq!(pod_state.volumes[0].name, "config");
    assert_eq!(pod_state.volumes[0].mount, "/var/lib/kubelet/volumes/config");
}

#[test]
fn volume_resolution_failure() {
    let mut pod_state = PodState::new();
    let t = VolumeMount::default().next(&mut pod_state, Err("plugin not found".to_string()));
    let phase = match t.into_parts() {
        Ok(p) => p,
        Err(_) => panic!("expected a hand-off"),
    };
    let error = match &phase {
        Phase::Error(e) => e,
        other => panic!("expected the error phase, got {:?}", other),
    };
    let status = error.status(&mut pod_state);
    assert_eq!(status.category, LifecycleCategory::Failed);
    assert!(status.message.contains("plugin not found"));
    assert_eq!(pod_state.volume_count(), 0);
}

#[test]
fn status_before_advance_is_pending() {
    let mut pod_state = PodState::new();
    let phase = VolumeMount::default();
    let status = phase.status(&mut pod_state);
    assert_eq!(status.category, LifecycleCategory::Pending);
    assert_eq!(status.message, "VolumeMount");
}

#[test]
fn status_repeated_reports_no_change() {
    let mut pod_state = PodState::new();
    let machine = PodMachine::new(Phase::VolumeMount(VolumeMount));
    for _ in 0..5 {
        let status = machine.status(&mut pod_state);
        assert_eq!(status.category, LifecycleCategory::Pending);
        assert_eq!(status.message, "VolumeMount");
        assert!(matches!(machine.phase(), Phase::VolumeMount(_)));
    }
    assert_eq!(machine.directive(), Directive::Perform(Action::ResolveVolumes));
}

#[test]
fn declared_edges_construct_transitions() {
    assert!(matches!(Transition::next(VolumeMount, Run).into_parts(), Ok(Phase::Run(_))));
    assert!(matches!(
        Transition::next(VolumeMount, Error::new("x".to_string())).into_parts(),
        Ok(Phase::Error(_))
    ));
    assert!(matches!(Transition::next(Run, Completed).into_parts(), Ok(Phase::Completed(_))));
    assert!(matches!(
        Transition::next(Run, Error::new("y".to_string())).into_parts(),
        Ok(Phase::Error(_))
    ));
}

#[test]
fn run_phase_outcomes() {
    assert!(matches!(Run.next(Ok(())).into_parts(), Ok(Phase::Completed(_))));
    match Run.next(Err("exit code 2".to_string())).into_parts() {
        Ok(Phase::Error(e)) => assert_eq!(e.message, "exit code 2"),
        _ => panic!("expected the error phase"),
    }
    let mut pod_state = PodState::new();
    let status = Run.status(&mut pod_state);
    assert_eq!(status.category, LifecycleCategory::Running);
    assert_eq!(status.message, "Running");
}

#[test]
fn terminal_phases_end_the_machine() {
    let t = Error::new("boom".to_string()).next();
    assert!(t.is_complete());
    assert_eq!(t.into_parts().err(), Some(Err("boom".to_string())));
    let t = Completed.next();
    assert!(t.is_complete());
    assert_eq!(t.into_parts().err(), Some(Ok(())));
    let mut pod_state = PodState::new();
    let status = Completed.status(&mut pod_state);
    assert_eq!(status.category, LifecycleCategory::Succeeded);
    assert_eq!(status.message, "Completed");
}

#[test]
fn make_status_keeps_its_fields() {
    let s = make_status(LifecycleCategory::Running, "pulling");
    assert_eq!(s.category, LifecycleCategory::Running);
    assert_eq!(s.message, "pulling");
}

#[test]
fn phase_accepts_only_its_outcome() {
    let p = Phase::VolumeMount(VolumeMount);
    assert_eq!(p.action(), Action::ResolveVolumes);
    assert!(p.accepts(&Outcome::Volumes(Ok(vec![]))));
    assert!(!p.accepts(&Outcome::Workload(Ok(()))));
    assert!(!p.accepts(&Outcome::Nothing));
    let r = Phase::Run(Run);
    assert_eq!(r.action(), Action::RunWorkload);
    assert!(r.accepts(&Outcome::Workload(Err("e".to_string()))));
    let e = Phase::Error(Error::new("e".to_string()));
    assert_eq!(e.action(), Action::Nothing);
    assert!(e.accepts(&Outcome::Nothing));
}

fn drive(machine: &mut PodMachine, pod_state: &mut PodState, volumes: Result<Vec<VolumeRef>, String>) {
    loop {
        let outcome = match machine.directive() {
            Directive::Stop => break,
            Directive::Perform(Action::ResolveVolumes) => Outcome::Volumes(volumes.clone()),
            Directive::Perform(Action::RunWorkload) => Outcome::Workload(Ok(())),
            Directive::Perform(Action::Nothing) => Outcome::Nothing,
        };
        assert!(machine.accepts(&outcome));
        machine.advance(pod_state, outcome);
    }
}

#[test]
fn machine_runs_to_completion() {
    let mut pod_state = PodState::new();
    let mut machine = PodMachine::new(Phase::VolumeMount(VolumeMount));
    drive(&mut machine, &mut pod_state, Ok(one_volume()));
    assert!(machine.is_ended());
    assert_eq!(machine.outcome(), Some(Ok(())));
    assert!(matches!(machine.phase(), Phase::Completed(_)));
    assert_eq!(pod_state.volume_count(), 1);
    assert!(!machine.accepts(&Outcome::Nothing));
}

#[test]
fn isolated_pods_do_not_affect_each_other() {
    let mut ok_state = PodState::new();
    let mut bad_state = PodState::new();
    let mut ok_machine = PodMachine::new(Phase::VolumeMount(VolumeMount));
    let mut bad_machine = PodMachine::new(Phase::VolumeMount(VolumeMount));
    ok_machine.advance(&mut ok_state, Outcome::Volumes(Ok(one_volume())));
    bad_machine.advance(&mut bad_state, Outcome::Volumes(Err("plugin not found".to_string())));
    drive(&mut ok_machine, &mut ok_state, Ok(one_volume()));
    drive(&mut bad_machine, &mut bad_state, Err("unused".to_string()));
    assert!(matches!(ok_machine.phase(), Phase::Completed(_)));
    assert_eq!(ok_machine.outcome(), Some(Ok(())));
    assert_eq!(ok_machine.status(&mut ok_state).category, LifecycleCategory::Succeeded);
    assert_eq!(ok_state.volume_count(), 1);
    assert!(matches!(bad_machine.phase(), Phase::Error(_)));
    assert_eq!(bad_machine.outcome(), Some(Err("plugin not found".to_string())));
    let s = bad_machine.status(&mut bad_state);
    assert_eq!(s.category, LifecycleCategory::Failed);
    assert_eq!(s.message, "plugin not found");
    assert_eq!(bad_state.volume_count(), 0);
}

#[test]
fn shared_state_readers_and_writer() {
    let shared = SharedState::new(String::from("/var/lib/kubelet/volumes"));
    let first = shared.read();
    let second = shared.read();
    assert_eq!(first.get(), second.get());
    first.release();
    second.release();
    let (value, guard) = shared.write();
    guard.release(format!("{}/pods", value));
    let reader = shared.read();
    assert_eq!(reader.get(), "/var/lib/kubelet/volumes/pods");
    reader.release();
}
