//! Control of the radiance integrator's bounded random walk.
//!
//! A path starts at a primary ray. At each vertex the scene is queried along
//! the current ray: a miss ends the path with the sky gradient; a hit asks the
//! hit material to scatter, unless the bounce bound is reached, in which case
//! the path ends black. An absorbed scatter ends the path black; a scattered
//! ray continues the walk one level deeper, its attenuation multiplied in.
//!
//! The colour arithmetic itself is done by the caller; this module decides
//! what happens next and proves that every walk ends.
use vstd::prelude::*;

verus! {

/// Number of scatter events after which a hit no longer scatters.
pub const MAX_DEPTH: u32 = 50;

/// What the walk does after the scene was queried along the current ray.
#[derive(PartialEq, Eq, Structural, Clone, Copy, Debug)]
pub enum Step {
    /// Nothing was hit: the path ends with the sky gradient.
    Sky,
    /// The path ends black: the bounce bound was reached at a hit.
    Black,
    /// Ask the hit material to scatter the ray.
    Scatter,
}

/// How a finished path ends.
#[derive(PartialEq, Eq, Structural, Clone, Copy, Debug)]
pub enum PathEnd {
    /// The last ray escaped: the radiance is the product of the attenuations
    /// times the sky gradient.
    Sky,
    /// The path was absorbed or cut off: the radiance is black.
    Black,
}

/// The state of one walk: how many scatter events happened so far.
#[derive(PartialEq, Eq, Structural, Clone, Copy, Debug)]
pub struct PathState {
    pub depth: u32,
}

/// The step taken after a scene query at the given depth.
pub open spec fn query_step(depth: nat, hit: bool) -> Step {
    if !hit {
        Step::Sky
    } else if depth < MAX_DEPTH {
        Step::Scatter
    } else {
        Step::Black
    }
}

/// The depth after a scatter attempt, or `None` when the path ends black.
pub open spec fn scatter_step(depth: nat, scattered: bool) -> Option<nat> {
    if scattered && depth < MAX_DEPTH {
        Some(depth + 1)
    } else {
        None
    }
}

/// The end of a walk from `depth` whose scene answers are `answers`, and the
/// number of attenuation factors in its radiance.
///
/// Each answer stands for one query: `None` is a miss, `Some(s)` a hit whose
/// material scattered the ray when `s` holds. The result is `None` when the
/// answers run out before the walk ends.
pub open spec fn walk(depth: nat, answers: Seq<Option<bool>>) -> Option<(PathEnd, nat)>
    decreases answers.len(),
{
    if answers.len() == 0 {
        None
    } else {
        match query_step(depth, answers[0] is Some) {
            Step::Sky => Some((PathEnd::Sky, 0)),
            Step::Black => Some((PathEnd::Black, 0)),
            Step::Scatter => match scatter_step(depth, answers[0]->0) {
                None => Some((PathEnd::Black, 0)),
                Some(next) => match walk(next, answers.drop_first()) {
                    None => None,
                    Some((end, bounces)) => Some((end, bounces + 1)),
                },
            },
        }
    }
}

/// Every walk ends: whatever the scene answers, a walk from `depth` ends
/// within `MAX_DEPTH + 1 - depth` queries (one query from the bound on), and
/// its radiance holds at most `MAX_DEPTH - depth` attenuation factors.
pub proof fn lemma_walk_terminates(depth: nat, answers: Seq<Option<bool>>)
    requires
        answers.len() > 0,
        depth + answers.len() > MAX_DEPTH,
    ensures
        walk(depth, answers) matches Some((_, bounces)) && (bounces == 0 || depth + bounces
            <= MAX_DEPTH),
    decreases answers.len(),
{
    if answers[0] is Some && depth < MAX_DEPTH && answers[0]->0 {
        lemma_walk_terminates(depth + 1, answers.drop_first());
    }
}

/// At or beyond the bounce bound a hit ends the walk at once, black, with no
/// further query and no attenuation factor.
pub proof fn lemma_bound_ends_black(depth: nat, answers: Seq<Option<bool>>)
    requires
        depth >= MAX_DEPTH,
        answers.len() > 0,
        answers[0] is Some,
    ensures
        walk(depth, answers) == Some((PathEnd::Black, 0nat)),
{
}

impl PathState {
    /// The state of a walk that has not scattered yet.
    pub fn new() -> (s: PathState)
        ensures
            s.depth == 0,
    {
        PathState { depth: 0 }
    }

    /// The state of a walk that has scattered `depth` times.
    pub fn at_depth(depth: u32) -> (s: PathState)
        ensures
            s.depth == depth,
    {
        PathState { depth }
    }

    /// Decides what follows a scene query that hit something iff `hit`.
    pub fn after_query(&self, hit: bool) -> (step: Step)
        ensures
            step == query_step(self.depth as nat, hit),
    {
        if !hit {
            Step::Sky
        } else if self.depth < MAX_DEPTH {
            Step::Scatter
        } else {
            Step::Black
        }
    }

    /// Decides what follows a scatter attempt: the next state when the
    /// material scattered the ray (`scattered`) and the bound allows another
    /// level, `None` when the path ends black.
    pub fn after_scatter(&self, scattered: bool) -> (next: Option<PathState>)
        ensures
            next matches Some(n) ==> scatter_step(self.depth as nat, scattered) == Some(
                n.depth as nat,
            ),
            next is None ==> scatter_step(self.depth as nat, scattered) is None,
    {
        if scattered && self.depth < MAX_DEPTH {
            Some(PathState { depth: self.depth + 1 })
        } else {
            None
        }
    }
}

} // verus!
