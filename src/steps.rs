use vstd::prelude::*;

use crate::phase::{
    declared_edge, status_of, Completed, Error, IntoPhase, Phase, PhaseView, Run, Transition,
    TransitionView, VolumeMount,
};
use crate::pod::{PodState, VolumeRef};
use crate::status::{make_status, LifecycleCategory, PodStatus};

verus! {

/// The outside work that a phase needs done before it can advance.
#[derive(Clone, Copy, Debug, PartialEq, Eq, Structural)]
pub enum Action {
    /// Resolve the pod's declared volumes against the latest manifest.
    ResolveVolumes,
    /// Run the pod's workload until it exits.
    RunWorkload,
    /// Nothing: the phase decides on its own.
    Nothing,
}

/// What the outside work of a phase produced.
#[derive(Debug)]
pub enum Outcome {
    /// The volume-resolution collaborator's answer, or its diagnostic.
    Volumes(Result<Vec<VolumeRef>, String>),
    /// How the workload ended, or its diagnostic.
    Workload(Result<(), String>),
    /// No outside work was done.
    Nothing,
}

/// The outside work that phase `p` asks for.
pub open spec fn action_of(p: PhaseView) -> Action {
    match p {
        PhaseView::VolumeMount => Action::ResolveVolumes,
        PhaseView::Run => Action::RunWorkload,
        _ => Action::Nothing,
    }
}

/// Whether `o` is the kind of outcome that phase `p` consumes.
pub open spec fn fits(p: PhaseView, o: Outcome) -> bool {
    match (p, o) {
        (PhaseView::VolumeMount, Outcome::Volumes(_)) => true,
        (PhaseView::Run, Outcome::Workload(_)) => true,
        (PhaseView::Error(_), Outcome::Nothing) => true,
        (PhaseView::Completed, Outcome::Nothing) => true,
        _ => false,
    }
}

/// The transition that phase `p` takes on outcome `o` (where `fits(p, o)`).
pub open spec fn step_of(p: PhaseView, o: Outcome) -> TransitionView {
    match (p, o) {
        (PhaseView::VolumeMount, Outcome::Volumes(Ok(_))) => TransitionView::Next(PhaseView::Run),
        (PhaseView::VolumeMount, Outcome::Volumes(Err(e))) => TransitionView::Next(
            PhaseView::Error(e@),
        ),
        (PhaseView::Run, Outcome::Workload(Ok(()))) => TransitionView::Next(PhaseView::Completed),
        (PhaseView::Run, Outcome::Workload(Err(e))) => TransitionView::Next(PhaseView::Error(e@)),
        (PhaseView::Error(m), _) => TransitionView::Complete(Err(m)),
        _ => TransitionView::Complete(Ok(())),
    }
}

/// The resolved volumes of a pod after phase `p` consumed outcome `o`.
pub open spec fn volumes_after(p: PhaseView, o: Outcome, before: Seq<VolumeRef>) -> Seq<
    VolumeRef,
> {
    match (p, o) {
        (PhaseView::VolumeMount, Outcome::Volumes(Ok(v))) => v@,
        _ => before,
    }
}

impl Default for VolumeMount {
    fn default() -> (r: VolumeMount)
        ensures
            r.phase_view() == PhaseView::VolumeMount,
    {
        VolumeMount
    }
}

impl VolumeMount {
    /// Stores the resolved volumes and hands off to the run phase, or hands off
    /// to the error phase with the collaborator's diagnostic.
    pub fn next(self, pod_state: &mut PodState, resolved: Result<Vec<VolumeRef>, String>) -> (r:
        Transition)
        ensures
            match resolved {
                Ok(v) => r@ == TransitionView::Next(PhaseView::Run) && final(pod_state).volumes@
                    == v@,
                Err(e) => r@ == TransitionView::Next(PhaseView::Error(e@)) && *final(pod_state)
                    == *old(pod_state),
            },
    {
        match resolved {
            Ok(volumes) => {
                pod_state.set_volumes(volumes);
                Transition::next(self, Run)
            },
            Err(e) => Transition::next(self, Error::new(e)),
        }
    }

    /// Always pending: this phase precedes the workload running.
    pub fn status(&self, pod_state: &mut PodState) -> (r: PodStatus)
        ensures
            r@ == status_of(PhaseView::VolumeMount),
            *final(pod_state) == *old(pod_state),
    {
        make_status(LifecycleCategory::Pending, "VolumeMount")
    }
}

impl Run {
    /// Hands off to the completed phase when the workload succeeded, else to
    /// the error phase with its diagnostic.
    pub fn next(self, exited: Result<(), String>) -> (r: Transition)
        ensures
            match exited {
                Ok(()) => r@ == TransitionView::Next(PhaseView::Completed),
                Err(e) => r@ == TransitionView::Next(PhaseView::Error(e@)),
            },
    {
        match exited {
            Ok(()) => Transition::next(self, Completed),
            Err(e) => Transition::next(self, Error::new(e)),
        }
    }

    /// Always running.
    pub fn status(&self, pod_state: &mut PodState) -> (r: PodStatus)
        ensures
            r@ == status_of(PhaseView::Run),
            *final(pod_state) == *old(pod_state),
    {
        make_status(LifecycleCategory::Running, "Running")
    }
}

impl Error {
    /// The error phase with the given diagnostic.
    pub fn new(message: String) -> (r: Error)
        ensures
            r.message@ == message@,
    {
        Error { message }
    }

    /// Terminal: ends the machine with the diagnostic as its failure.
    pub fn next(self) -> (r: Transition)
        ensures
            r@ == TransitionView::Complete(Err(self.message@)),
    {
        Transition::complete(Err(self.message))
    }

    /// Reports a failed pod, with the diagnostic as the label.
    pub fn status(&self, pod_state: &mut PodState) -> (r: PodStatus)
        ensures
            r@ == status_of(PhaseView::Error(self.message@)),
            *final(pod_state) == *old(pod_state),
    {
        PodStatus { category: LifecycleCategory::Failed, message: self.message.clone() }
    }
}

impl Completed {
    /// Terminal: ends the machine with success.
    pub fn next(self) -> (r: Transition)
        ensures
            r@ == TransitionView::Complete(Ok(())),
    {
        Transition::complete(Ok(()))
    }

    /// Reports a succeeded pod.
    pub fn status(&self, pod_state: &mut PodState) -> (r: PodStatus)
        ensures
            r@ == status_of(PhaseView::Completed),
            *final(pod_state) == *old(pod_state),
    {
        make_status(LifecycleCategory::Succeeded, "Completed")
    }
}

impl Phase {
    /// The outside work this phase asks for before it can advance.
    pub fn action(&self) -> (r: Action)
        ensures
            r == action_of(self@),
    {
        match self {
            Phase::VolumeMount(_) => Action::ResolveVolumes,
            Phase::Run(_) => Action::RunWorkload,
            Phase::Error(_) => Action::Nothing,
            Phase::Completed(_) => Action::Nothing,
        }
    }

    /// Whether this phase consumes outcomes of the kind of `o`.
    pub fn accepts(&self, o: &Outcome) -> (r: bool)
        ensures
            r == fits(self@, *o),
    {
        match (self, o) {
            (Phase::VolumeMount(_), Outcome::Volumes(_)) => true,
            (Phase::Run(_), Outcome::Workload(_)) => true,
            (Phase::Error(_), Outcome::Nothing) => true,
            (Phase::Completed(_), Outcome::Nothing) => true,
            _ => false,
        }
    }

    /// Advances the phase on the outcome of its outside work; consumes the phase.
    pub fn next(self, pod_state: &mut PodState, outcome: Outcome) -> (r: Transition)
        requires
            fits(self@, outcome),
        ensures
            r@ == step_of(self@, outcome),
            final(pod_state).volumes@ == volumes_after(self@, outcome, old(pod_state).volumes@),
    {
        match (self, outcome) {
            (Phase::VolumeMount(p), Outcome::Volumes(resolved)) => p.next(pod_state, resolved),
            (Phase::Run(p), Outcome::Workload(exited)) => p.next(exited),
            (Phase::Error(p), _) => p.next(),
            (Phase::Completed(p), _) => p.next(),
            // an outcome of another phase's kind: excluded by `requires`
            _ => {
                proof {
                    assert(false);
                }
                Transition::complete(Ok(()))
            },
        }
    }

    /// The status this phase reports; it moves nothing.
    pub fn status(&self, pod_state: &mut PodState) -> (r: PodStatus)
        ensures
            r@ == status_of(self@),
            *final(pod_state) == *old(pod_state),
    {
        match self {
            Phase::VolumeMount(p) => p.status(pod_state),
            Phase::Run(p) => p.status(pod_state),
            Phase::Error(p) => p.status(pod_state),
            Phase::Completed(p) => p.status(pod_state),
        }
    }
}

/// Every hand-off that a phase makes is an edge that some `TransitionTo` impl declares.
pub proof fn steps_follow_declared_edges(p: PhaseView, o: Outcome)
    requires
        fits(p, o),
    ensures
        step_of(p, o) is Next ==> declared_edge(p, step_of(p, o)->Next_0),
{
}

} // verus!
