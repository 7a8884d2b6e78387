use vstd::prelude::*;

verus! {

/// What tracing one ray against the scene gave.
#[derive(Clone, Copy, Debug, PartialEq, Eq, Structural)]
pub enum Outcome {
    /// The ray hit nothing and left the scene.
    Escaped,
    /// The ray hit a surface whose material absorbed it.
    Absorbed,
    /// The ray hit a surface whose material sent out a new ray.
    Scattered,
}

/// What the path integrator does with a ray.
#[derive(Clone, Copy, Debug, PartialEq, Eq, Structural)]
pub enum Step {
    /// The ray contributes black.
    Black,
    /// The ray contributes the sky gradient of its direction.
    Background,
    /// Trace the scattered ray with the given budget, and dim what it brings
    /// back by the attenuation of the surface.
    Bounce { depth_budget: i32 },
}

/// The step that follows a trace made with `depth_budget` that gave `outcome`.
pub open spec fn step_of(depth_budget: int, outcome: Outcome) -> Step {
    if depth_budget <= 0 {
        Step::Black
    } else {
        match outcome {
            Outcome::Escaped => Step::Background,
            Outcome::Absorbed => Step::Black,
            Outcome::Scattered => Step::Bounce { depth_budget: (depth_budget - 1) as i32 },
        }
    }
}

/// Number of bounces of a path that starts with `depth_budget` and whose
/// traces give `outcomes` in turn, up to the first step that ends it.
pub open spec fn bounces(depth_budget: int, outcomes: Seq<Outcome>) -> nat
    decreases outcomes.len(),
{
    if outcomes.len() == 0 {
        0
    } else {
        match step_of(depth_budget, outcomes[0]) {
            Step::Bounce { depth_budget: d } => 1 + bounces(d as int, outcomes.drop_first()),
            _ => 0,
        }
    }
}

/// Whether a ray with this budget is traced at all. With no budget left the
/// ray is black and the scene is not consulted.
pub fn must_trace(depth_budget: i32) -> (r: bool)
    ensures
        r == (depth_budget > 0),
        !r ==> forall|o: Outcome| step_of(depth_budget as int, o) == Step::Black,
{
    depth_budget > 0
}

/// The step after a trace: black once the budget is spent or when the surface
/// absorbs the ray, the background when the ray escapes, and otherwise a bounce
/// with one less unit of budget.
pub fn next_step(depth_budget: i32, outcome: Outcome) -> (r: Step)
    ensures
        r == step_of(depth_budget as int, outcome),
        depth_budget <= 0 ==> r == Step::Black,
{
    if depth_budget <= 0 {
        Step::Black
    } else {
        match outcome {
            Outcome::Escaped => Step::Background,
            Outcome::Absorbed => Step::Black,
            Outcome::Scattered => Step::Bounce { depth_budget: depth_budget - 1 },
        }
    }
}

/// A path makes at most `depth_budget` bounces, and none when the budget is
/// zero or less, whatever the scene does to its rays.
pub proof fn lemma_bounces_bounded(depth_budget: i32, outcomes: Seq<Outcome>)
    ensures
        depth_budget > 0 ==> bounces(depth_budget as int, outcomes) <= depth_budget,
        depth_budget <= 0 ==> bounces(depth_budget as int, outcomes) == 0,
    decreases outcomes.len(),
{
    if outcomes.len() > 0 {
        if depth_budget > 0 && outcomes[0] == Outcome::Scattered {
            lemma_bounces_bounded((depth_budget - 1) as i32, outcomes.drop_first());
        }
    }
}

} // verus!
