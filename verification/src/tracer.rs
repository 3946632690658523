//! The path state machine of the integrator.
//!
//! Tracing a ray alternates between asking the scene what the ray meets and
//! deciding what follows. The decisions are made here; whoever drives the path
//! intersects, scatters and adds up the light.

use crate::material::Material;
use vstd::prelude::*;

verus! {

/// What a ray met in the scene.
#[derive(Clone, Copy, Debug, PartialEq, Eq, Structural)]
pub enum Encounter {
    /// Nothing: the ray left the scene.
    Miss,
    /// A surface that does not scatter.
    Absorbed,
    /// A surface that scattered the ray on.
    Scattered,
}

/// How a path ends, and with it what the last ray contributes.
#[derive(Clone, Copy, Debug, PartialEq, Eq, Structural)]
pub enum Ending {
    /// The depth ran out: black.
    Exhausted,
    /// The ray left the scene: the background in its direction.
    Escaped,
    /// The ray was absorbed: what the surface emits.
    Absorbed,
}

/// What the integrator does after an encounter.
#[derive(Clone, Copy, Debug, PartialEq, Eq, Structural)]
pub enum Step {
    /// The path is over.
    Finish(Ending),
    /// Trace the scattered ray with this much depth left, and return what the
    /// surface emits plus the attenuated radiance of that ray.
    Bounce(u32),
}

/// The step that follows an encounter at the given depth.
pub open spec fn step_after(depth: nat, encounter: Encounter) -> Step {
    if depth == 0 {
        Step::Finish(Ending::Exhausted)
    } else {
        match encounter {
            Encounter::Miss => Step::Finish(Ending::Escaped),
            Encounter::Absorbed => Step::Finish(Ending::Absorbed),
            Encounter::Scattered => Step::Bounce((depth - 1) as u32),
        }
    }
}

/// How the path ends that starts with `depth` and meets `encounters(0)`,
/// `encounters(1)`, ... in turn.
pub open spec fn ending_of(depth: nat, encounters: spec_fn(nat) -> Encounter) -> Ending
    decreases depth,
{
    if depth == 0 {
        Ending::Exhausted
    } else {
        match encounters(0) {
            Encounter::Miss => Ending::Escaped,
            Encounter::Absorbed => Ending::Absorbed,
            Encounter::Scattered => ending_of((depth - 1) as nat, |k: nat| encounters(k + 1)),
        }
    }
}

/// The number of rays that the path casts into the scene.
pub open spec fn rays_cast(depth: nat, encounters: spec_fn(nat) -> Encounter) -> nat
    decreases depth,
{
    if depth == 0 {
        0
    } else {
        match encounters(0) {
            Encounter::Scattered => 1 + rays_cast((depth - 1) as nat, |k: nat| encounters(k + 1)),
            _ => 1,
        }
    }
}

/// What a ray met, given the material of the nearest surface it hit, if any.
pub open spec fn encounter_with(hit: Option<Material>) -> Encounter {
    match hit {
        None => Encounter::Miss,
        Some(m) => if m.spec_scatters() {
            Encounter::Scattered
        } else {
            Encounter::Absorbed
        },
    }
}

/// Classifies what a ray met by the material of the nearest surface it hit.
pub fn classify(hit: Option<&Material>) -> (e: Encounter)
    ensures
        e == encounter_with(
            match hit {
                Some(m) => Some(*m),
                None => None,
            },
        ),
{
    match hit {
        None => Encounter::Miss,
        Some(m) => if m.scatters() {
            Encounter::Scattered
        } else {
            Encounter::Absorbed
        },
    }
}

/// Whether a path with this much depth left is over before it looks at the scene.
pub fn exhausted(depth: u32) -> (over: bool)
    ensures
        over == (depth == 0),
        over ==> forall|e: Encounter| step_after(depth as nat, e) == Step::Finish(Ending::Exhausted),
{
    depth == 0
}

/// Decides what follows an encounter at the given depth. With no depth left the
/// path is over whatever the ray met.
pub fn resume(depth: u32, encounter: Encounter) -> (step: Step)
    ensures
        step == step_after(depth as nat, encounter),
{
    if depth == 0 {
        Step::Finish(Ending::Exhausted)
    } else {
        match encounter {
            Encounter::Miss => Step::Finish(Ending::Escaped),
            Encounter::Absorbed => Step::Finish(Ending::Absorbed),
            Encounter::Scattered => Step::Bounce(depth - 1),
        }
    }
}

/// A path with no depth is black, whatever the scene holds.
pub proof fn lemma_no_depth_is_black(encounters: spec_fn(nat) -> Encounter)
    ensures
        ending_of(0, encounters) == Ending::Exhausted,
        rays_cast(0, encounters) == 0,
        forall|e: Encounter| step_after(0, e) == Step::Finish(Ending::Exhausted),
{
}

/// A path casts at most as many rays as it has depth.
pub proof fn lemma_rays_bounded_by_depth(depth: nat, encounters: spec_fn(nat) -> Encounter)
    ensures
        rays_cast(depth, encounters) <= depth,
    decreases depth,
{
    if depth > 0 {
        lemma_rays_bounded_by_depth((depth - 1) as nat, |k: nat| encounters(k + 1));
    }
}

/// Following the steps one by one ends the path as `ending_of` says: a finish is
/// the ending, and a bounce hands the ending over to the rest of the path.
pub proof fn lemma_steps_reach_ending(depth: nat, encounters: spec_fn(nat) -> Encounter)
    requires
        depth <= u32::MAX,
    ensures
        match step_after(depth, encounters(0)) {
            Step::Finish(ending) => ending_of(depth, encounters) == ending,
            Step::Bounce(rest) => rest == depth - 1 && ending_of(depth, encounters) == ending_of(
                rest as nat,
                |k: nat| encounters(k + 1),
            ),
        },
{
}

} // verus!
