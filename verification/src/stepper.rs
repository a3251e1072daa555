use vstd::prelude::*;

verus! {

/// The state of a stepper.
#[derive(Debug, Clone, Copy, PartialEq, Eq, Structural)]
pub enum StepperState {
    /// The stepper is in progress, at the given step.
    InProgress(usize),
    /// The stepper is complete.
    Complete,
}

impl StepperState {
    /// Gets the index of the currently active step.
    pub fn step(&self) -> (r: Option<usize>)
        ensures
            r == (match *self {
                StepperState::InProgress(s) => Some(s),
                StepperState::Complete => None::<usize>,
            }),
    {
        match *self {
            StepperState::InProgress(step) => Some(step),
            StepperState::Complete => None,
        }
    }

    /// Is the stepper currently in progress?
    pub fn in_progress(&self) -> (r: bool)
        ensures
            r == (*self is InProgress),
    {
        match *self {
            StepperState::InProgress(_) => true,
            StepperState::Complete => false,
        }
    }

    /// Is the stepper currently complete?
    pub fn complete(&self) -> (r: bool)
        ensures
            r == (*self is Complete),
    {
        match *self {
            StepperState::InProgress(_) => false,
            StepperState::Complete => true,
        }
    }

    /// The state one step back; the first step has no previous step, and a
    /// complete stepper stays complete.
    pub open spec fn spec_prev(self) -> Self {
        match self {
            StepperState::InProgress(s) => StepperState::InProgress(
                if s > 0 { (s - 1) as usize } else { 0 },
            ),
            StepperState::Complete => StepperState::Complete,
        }
    }

    /// The state one step forward; a complete stepper stays complete.
    pub open spec fn spec_next(self) -> Self {
        match self {
            StepperState::InProgress(s) => StepperState::InProgress((s + 1) as usize),
            StepperState::Complete => StepperState::Complete,
        }
    }

    /// Constructs a new state with the previous step. The first step has no
    /// previous step, so it stays where it is.
    pub fn prev(&self) -> (r: Self)
        ensures
            r == self.spec_prev(),
    {
        match *self {
            StepperState::InProgress(step) => StepperState::InProgress(
                if step > 0 { step - 1 } else { 0 },
            ),
            StepperState::Complete => StepperState::Complete,
        }
    }

    /// Constructs a new state with the next step.
    pub fn next(&self) -> (r: Self)
        requires
            self matches StepperState::InProgress(s) ==> s < usize::MAX,
        ensures
            r == self.spec_next(),
    {
        match *self {
            StepperState::InProgress(step) => StepperState::InProgress(step + 1),
            StepperState::Complete => StepperState::Complete,
        }
    }

    /// Constructs a new completed state.
    pub fn finish(&self) -> (r: Self)
        ensures
            r == StepperState::Complete,
    {
        StepperState::Complete
    }
}


impl Default for StepperState {
    fn default() -> (r: Self)
        ensures
            r == StepperState::InProgress(0),
    {
        StepperState::InProgress(0)
    }
}

/// The button that moves a stepper forward.
#[derive(Debug, Clone, Copy, PartialEq, Eq, Structural)]
pub enum StepperForward {
    /// Go to the next step.
    Next,
    /// Complete the stepper; shown on the last step.
    Finish,
}

/// What a stepper with a given number of steps shows.
#[derive(Debug, Clone, Copy, PartialEq, Eq, Structural)]
pub enum StepperView {
    /// The stepper is complete and shows nothing.
    Hidden,
    /// The current step does not exist; the stepper completes itself.
    AutoFinish,
    /// A step is shown, with a back button when there is a previous step
    /// and a forward button.
    Step {
        /// The step shown.
        step: usize,
        /// Whether a back button is shown.
        back: bool,
        /// The forward button.
        forward: StepperForward,
    },
}

/// What a stepper in `state` with `num_steps` steps shows.
pub open spec fn spec_stepper_view(state: StepperState, num_steps: nat) -> StepperView {
    match state {
        StepperState::InProgress(step) => if step < num_steps {
            StepperView::Step {
                step,
                back: step > 0,
                forward: if step + 1 < num_steps { StepperForward::Next } else { StepperForward::Finish },
            }
        } else {
            StepperView::AutoFinish
        },
        StepperState::Complete => StepperView::Hidden,
    }
}

/// Decides what a stepper in `state` with `num_steps` steps shows.
pub fn stepper_view(state: StepperState, num_steps: usize) -> (r: StepperView)
    ensures
        r == spec_stepper_view(state, num_steps as nat),
        match state {
            StepperState::InProgress(k) => if k < num_steps {
                r matches StepperView::Step { step, back, forward } && step == k && back == (k > 0)
                    && (forward == StepperForward::Finish <==> k + 1 == num_steps)
            } else {
                r == StepperView::AutoFinish
            },
            StepperState::Complete => r == StepperView::Hidden,
        },
{
    proof {
        lemma_finish_on_last_step(state, num_steps as nat);
    }
    match state {
        StepperState::InProgress(step) => if step < num_steps {
            StepperView::Step {
                step,
                back: step > 0,
                forward: if step < num_steps - 1 { StepperForward::Next } else { StepperForward::Finish },
            }
        } else {
            StepperView::AutoFinish
        },
        StepperState::Complete => StepperView::Hidden,
    }
}

/// Going back undoes going forward, and going forward undoes going back
/// from any step but the first; a complete stepper stays complete.
pub proof fn lemma_prev_next_inverse(s: StepperState)
    ensures
        s matches StepperState::InProgress(k) && k < usize::MAX ==> s.spec_next().spec_prev() == s,
        s matches StepperState::InProgress(k) && k > 0 ==> s.spec_prev().spec_next() == s,
        s is Complete ==> s.spec_next() == s && s.spec_prev() == s,
{
}

/// A shown step is the stepper's current step; it has a back button unless
/// it is the first, and its forward button is Finish exactly on the last
/// step (every step before the last offers Next). A step past the end
/// finishes the stepper, and a complete stepper shows nothing.
pub proof fn lemma_finish_on_last_step(state: StepperState, num_steps: nat)
    ensures
        match state {
            StepperState::InProgress(k) => if k < num_steps {
                spec_stepper_view(state, num_steps) matches StepperView::Step { step, back, forward }
                    && step == k && back == (k > 0) && (forward == StepperForward::Finish <==> k + 1 == num_steps)
            } else {
                spec_stepper_view(state, num_steps) == StepperView::AutoFinish
            },
            StepperState::Complete => spec_stepper_view(state, num_steps) == StepperView::Hidden,
        },
{
}

/// Moving forward from a shown step that is not the last one shows the
/// next step.
pub proof fn lemma_next_shows_next_step(s: StepperState, num_steps: nat)
    requires
        num_steps <= usize::MAX,
        spec_stepper_view(s, num_steps) matches StepperView::Step { forward: StepperForward::Next, .. },
    ensures
        s matches StepperState::InProgress(k) && spec_stepper_view(s.spec_next(), num_steps)
            matches StepperView::Step { step, back: true, .. } && step == k + 1,
{
}

} // verus!
