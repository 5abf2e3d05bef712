use vstd::prelude::*;

verus! {

/// The comparisons a caller reports after evaluating the objective on both
/// sides of the current point with the central-difference stencil.
#[derive(Clone, Copy, Debug, PartialEq, Eq, Structural)]
pub struct GradientReport {
    /// The loss one stencil to the right is at least the centre loss.
    pub right_not_lower: bool,
    /// The loss one stencil to the left is at least the centre loss.
    pub left_not_lower: bool,
    /// The magnitude of the gradient estimate is at most the stencil size.
    pub grad_within_floor: bool,
    /// The curvature-scaled (quasi-Newton) step points downhill.
    pub newton_descends: bool,
    /// The quasi-Newton step has magnitude at most the step cap.
    pub newton_within_cap: bool,
    /// The plain gradient step has magnitude at most the step cap.
    pub steepest_within_cap: bool,
}

/// Which search direction the line search follows.
#[derive(Clone, Copy, Debug, PartialEq, Eq, Structural)]
pub enum Direction {
    /// `-sign(grad) * |grad| / hess`.
    Newton,
    /// `-sign(grad) * |grad|`.
    Steepest,
    /// `-sign(grad) * cap`.
    Capped,
}

impl GradientReport {
    /// No reliable derivative estimate at this resolution: no neighbour is
    /// lower than the centre, or the gradient is below the noise floor.
    pub open spec fn fails_spec(self) -> bool {
        (self.right_not_lower && self.left_not_lower) || self.grad_within_floor
    }

    /// The direction that survives the two safeguards: an uphill quasi-Newton
    /// step is replaced by the gradient step, and a step longer than the cap is
    /// replaced by the capped step.
    pub open spec fn direction_spec(self) -> Direction {
        if self.newton_descends {
            if self.newton_within_cap { Direction::Newton } else { Direction::Capped }
        } else {
            if self.steepest_within_cap { Direction::Steepest } else { Direction::Capped }
        }
    }

    /// Whether the report is a stencil failure.
    pub fn stencil_failure(&self) -> (r: bool)
        ensures
            r == self.fails_spec(),
    {
        (self.right_not_lower && self.left_not_lower) || self.grad_within_floor
    }

    /// The search direction to follow after a successful estimate.
    pub fn direction(&self) -> (r: Direction)
        ensures
            r == self.direction_spec(),
            r == Direction::Newton ==> self.newton_descends && self.newton_within_cap,
            r == Direction::Steepest ==> !self.newton_descends && self.steepest_within_cap,
    {
        if self.newton_descends {
            if self.newton_within_cap {
                Direction::Newton
            } else {
                Direction::Capped
            }
        } else if self.steepest_within_cap {
            Direction::Steepest
        } else {
            Direction::Capped
        }
    }
}

} // verus!
