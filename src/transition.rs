use vstd::prelude::*;

verus! {

/// What one animation step does to an animated value (a position or an
/// angle).
#[derive(Clone, Copy, Debug, PartialEq, Eq, Structural)]
pub enum StepAction {
    /// The value already equals its target: nothing changes.
    Rest,
    /// The last transition had completed but the value is off target: it
    /// jumps to the target and a new progress count starts.
    Snap,
    /// A transition is under way: progress advances and the value is eased
    /// between its start and the target.
    Ease,
}

/// Chooses the step for a value from whether it equals its target and
/// whether its transition progress has reached completion.
pub fn step_action(at_target: bool, progress_complete: bool) -> (r: StepAction)
    ensures
        r == if at_target {
            StepAction::Rest
        } else if progress_complete {
            StepAction::Snap
        } else {
            StepAction::Ease
        },
{
    if at_target {
        StepAction::Rest
    } else if progress_complete {
        StepAction::Snap
    } else {
        StepAction::Ease
    }
}

} // verus!
