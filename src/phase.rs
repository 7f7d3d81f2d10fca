use vstd::prelude::*;

use crate::pod::{PodState, VolumeRef};
use crate::status::{make_status, LifecycleCategory, PodStatus, StatusView};

verus! {

/// Which phase a pod is in; the error phase carries its diagnostic.
pub enum PhaseView {
    VolumeMount,
    Run,
    Error(Seq<char>),
    Completed,
}

/// The declared edges of the lifecycle graph: one for each `TransitionTo` impl below.
pub open spec fn declared_edge(from: PhaseView, to: PhaseView) -> bool {
    match (from, to) {
        (PhaseView::VolumeMount, PhaseView::Run) => true,
        (PhaseView::VolumeMount, PhaseView::Error(_)) => true,
        (PhaseView::Run, PhaseView::Completed) => true,
        (PhaseView::Run, PhaseView::Error(_)) => true,
        _ => false,
    }
}

/// The status record that a phase reports.
pub open spec fn status_of(p: PhaseView) -> StatusView {
    match p {
        PhaseView::VolumeMount => StatusView {
            category: LifecycleCategory::Pending,
            message: "VolumeMount"@,
        },
        PhaseView::Run => StatusView {
            category: LifecycleCategory::Running,
            message: "Running"@,
        },
        PhaseView::Error(m) => StatusView { category: LifecycleCategory::Failed, message: m },
        PhaseView::Completed => StatusView {
            category: LifecycleCategory::Succeeded,
            message: "Completed"@,
        },
    }
}

/// Marker: its impl for a source phase is the sole authorization to hand off to `Target`.
pub trait TransitionTo<Target> {

}

/// A phase type that can be placed into the pod's phase slot.
pub trait IntoPhase: Sized {
    spec fn phase_view(&self) -> PhaseView;

    fn into_phase(self) -> (r: Phase)
        ensures
            r@ == self.phase_view(),
    ;
}

/// The pod is resolving its declared volumes.
#[derive(Debug)]
pub struct VolumeMount;

/// The pod's workload is running.
#[derive(Debug)]
pub struct Run;

/// The pod failed; the message says why.
#[derive(Debug)]
pub struct Error {
    pub message: String,
}

/// The pod's workload finished successfully.
#[derive(Debug)]
pub struct Completed;

impl TransitionTo<Run> for VolumeMount {

}

impl TransitionTo<Error> for VolumeMount {

}

impl TransitionTo<Completed> for Run {

}

impl TransitionTo<Error> for Run {

}

/// The phase a pod is in, owned by its state machine.
#[derive(Debug)]
pub enum Phase {
    VolumeMount(VolumeMount),
    Run(Run),
    Error(Error),
    Completed(Completed),
}

impl View for Phase {
    type V = PhaseView;

    open spec fn view(&self) -> PhaseView {
        match self {
            Phase::VolumeMount(_) => PhaseView::VolumeMount,
            Phase::Run(_) => PhaseView::Run,
            Phase::Error(e) => PhaseView::Error(e.message@),
            Phase::Completed(_) => PhaseView::Completed,
        }
    }
}

impl IntoPhase for VolumeMount {
    open spec fn phase_view(&self) -> PhaseView {
        PhaseView::VolumeMount
    }

    fn into_phase(self) -> (r: Phase) {
        Phase::VolumeMount(self)
    }
}

impl IntoPhase for Run {
    open spec fn phase_view(&self) -> PhaseView {
        PhaseView::Run
    }

    fn into_phase(self) -> (r: Phase) {
        Phase::Run(self)
    }
}

impl IntoPhase for Error {
    open spec fn phase_view(&self) -> PhaseView {
        PhaseView::Error(self.message@)
    }

    fn into_phase(self) -> (r: Phase) {
        Phase::Error(self)
    }
}

impl IntoPhase for Completed {
    open spec fn phase_view(&self) -> PhaseView {
        PhaseView::Completed
    }

    fn into_phase(self) -> (r: Phase) {
        Phase::Completed(self)
    }
}

/// What a transition does, as a value.
pub enum TransitionView {
    Next(PhaseView),
    Complete(Result<(), Seq<char>>),
}

enum Step {
    Next(Phase),
    Complete(Result<(), String>),
}

/// The outcome of one phase step: the next phase, or the end of the machine.
///
/// Its field is private: a transition to another phase is only built through
/// `Transition::next`, whose bound asks for the matching `TransitionTo` impl.
pub struct Transition {
    step: Step,
}

impl View for Transition {
    type V = TransitionView;

    closed spec fn view(&self) -> TransitionView {
        match self.step {
            Step::Next(p) => TransitionView::Next(p@),
            Step::Complete(Ok(())) => TransitionView::Complete(Ok(())),
            Step::Complete(Err(m)) => TransitionView::Complete(Err(m@)),
        }
    }
}

impl Transition {
    /// Hands off from `from` to `to`; only compiles where `from` declares the edge.
    pub fn next<S: TransitionTo<T>, T: IntoPhase>(from: S, to: T) -> (r: Transition)
        ensures
            r@ == TransitionView::Next(to.phase_view()),
    {
        let _ = from;
        Transition { step: Step::Next(to.into_phase()) }
    }

    /// Ends the machine with the given outcome.
    pub fn complete(outcome: Result<(), String>) -> (r: Transition)
        ensures
            r@ == TransitionView::Complete(
                match outcome {
                    Ok(()) => Ok(()),
                    Err(m) => Err(m@),
                },
            ),
    {
        Transition { step: Step::Complete(outcome) }
    }

    /// Whether this transition ends the machine.
    pub fn is_complete(&self) -> (r: bool)
        ensures
            r == (self@ is Complete),
    {
        match &self.step {
            Step::Next(_) => false,
            Step::Complete(_) => true,
        }
    }

    /// Splits the transition into the next phase, or the final outcome.
    pub fn into_parts(self) -> (r: Result<Phase, Result<(), String>>)
        ensures
            match (self@, r) {
                (TransitionView::Next(p), Ok(q)) => q@ == p,
                (TransitionView::Complete(Ok(())), Err(Ok(()))) => true,
                (TransitionView::Complete(Err(m)), Err(Err(n))) => n@ == m,
                _ => false,
            },
    {
        match self.step {
            Step::Next(p) => Ok(p),
            Step::Complete(c) => Err(c),
        }
    }
}

} // verus!
