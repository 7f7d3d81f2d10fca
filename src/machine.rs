use vstd::prelude::*;

use crate::phase::{declared_edge, status_of, Completed, Error, Phase, PhaseView, TransitionView};
use crate::pod::PodState;
use crate::status::{PodStatus, StatusView};
use crate::steps::{action_of, fits, step_of, volumes_after, Action, Outcome};

verus! {

/// What the loop that drives a machine must do next.
#[derive(Clone, Copy, Debug, PartialEq, Eq, Structural)]
pub enum Directive {
    /// Perform the current phase's outside work and hand its outcome to `advance`.
    Perform(Action),
    /// The machine has ended; stop driving it (status may still be asked).
    Stop,
}

/// One pod's state machine: the phase it owns, and its outcome once it has ended.
pub struct PodMachine {
    phase: Phase,
    ended: Option<Result<(), String>>,
}

impl PodMachine {
    /// The phase the machine is in.
    pub closed spec fn phase_view(&self) -> PhaseView {
        self.phase@
    }

    /// The machine's final outcome, once it has ended.
    pub closed spec fn ended_view(&self) -> Option<Result<(), Seq<char>>> {
        match self.ended {
            None => None,
            Some(Ok(())) => Some(Ok(())),
            Some(Err(m)) => Some(Err(m@)),
        }
    }

    /// A machine that starts in `initial`.
    pub fn new(initial: Phase) -> (r: PodMachine)
        ensures
            r.phase_view() == initial@,
            r.ended_view() is None,
    {
        PodMachine { phase: initial, ended: None }
    }

    /// The phase the machine is in.
    pub fn phase(&self) -> (r: &Phase)
        ensures
            r@ == self.phase_view(),
    {
        &self.phase
    }

    /// Whether the machine has ended.
    pub fn is_ended(&self) -> (r: bool)
        ensures
            r == (self.ended_view() is Some),
    {
        self.ended.is_some()
    }

    /// The machine's final outcome, once it has ended.
    pub fn outcome(&self) -> (r: Option<Result<(), String>>)
        ensures
            match (self.ended_view(), r) {
                (None, None) => true,
                (Some(Ok(())), Some(Ok(()))) => true,
                (Some(Err(m)), Some(Err(n))) => n@ == m,
                _ => false,
            },
    {
        match &self.ended {
            None => None,
            Some(Ok(())) => Some(Ok(())),
            Some(Err(m)) => Some(Err(m.clone())),
        }
    }

    /// What the driving loop must do next.
    pub fn directive(&self) -> (r: Directive)
        ensures
            self.ended_view() is Some ==> r == Directive::Stop,
            self.ended_view() is None ==> r == Directive::Perform(action_of(self.phase_view())),
    {
        if self.ended.is_some() {
            Directive::Stop
        } else {
            Directive::Perform(self.phase.action())
        }
    }

    /// Whether `advance` takes `o` now.
    pub fn accepts(&self, o: &Outcome) -> (r: bool)
        ensures
            r == (self.ended_view() is None && fits(self.phase_view(), *o)),
    {
        self.ended.is_none() && self.phase.accepts(o)
    }

    /// Runs one step: the current phase consumes `outcome` and the machine moves
    /// to the phase it hands off to, or ends.
    pub fn advance(&mut self, pod_state: &mut PodState, outcome: Outcome)
        requires
            old(self).ended_view() is None,
            fits(old(self).phase_view(), outcome),
        ensures
            match step_of(old(self).phase_view(), outcome) {
                TransitionView::Next(q) => final(self).phase_view() == q
                    && final(self).ended_view() is None,
                TransitionView::Complete(c) => final(self).phase_view() == old(self).phase_view()
                    && final(self).ended_view() == Some(c),
            },
            final(self).phase_view() == old(self).phase_view() || declared_edge(
                old(self).phase_view(),
                final(self).phase_view(),
            ),
            final(pod_state).volumes@ == volumes_after(
                old(self).phase_view(),
                outcome,
                old(pod_state).volumes@,
            ),
    {
        let mut current = Phase::Completed(Completed);
        std::mem::swap(&mut current, &mut self.phase);
        let transition = current.next(pod_state, outcome);
        match transition.into_parts() {
            Ok(next) => {
                self.phase = next;
            },
            Err(done) => {
                self.phase = match &done {
                    Ok(()) => Phase::Completed(Completed),
                    Err(m) => Phase::Error(Error::new(m.clone())),
                };
                self.ended = Some(done);
            },
        }
    }

    /// The status the current phase reports; it moves neither the machine nor the pod's data.
    pub fn status(&self, pod_state: &mut PodState) -> (r: PodStatus)
        ensures
            r@ == status_of(self.phase_view()),
            *final(pod_state) == *old(pod_state),
    {
        self.phase.status(pod_state)
    }
}

/// The records of `n` status calls in a row on a machine in phase `p`, with no
/// `advance` between them: `status` leaves the machine and the pod's data as they were.
pub open spec fn status_polls(p: PhaseView, n: nat) -> Seq<StatusView>
    decreases n,
{
    if n == 0 {
        Seq::empty()
    } else {
        status_polls(p, (n - 1) as nat).push(status_of(p))
    }
}

/// Asking for the status any number of times in a row gives that many records,
/// all the same, so none of them reports a change of phase.
pub proof fn status_polls_agree(p: PhaseView, n: nat)
    ensures
        status_polls(p, n).len() == n,
        forall|i: int| 0 <= i < n ==> #[trigger] status_polls(p, n)[i] == status_of(p),
    decreases n,
{
    if n > 0 {
        status_polls_agree(p, (n - 1) as nat);
    }
}

} // verus!
