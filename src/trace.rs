//! The bounce loop of the ray-color integrator. A path starts with a depth
//! budget; each time the scene is queried, the answer is an event, and the
//! path either stops (on the background, or black) or goes on with one
//! bounce less. The color of the path is the product of the attenuations met
//! along the way with the background color, or black.
use vstd::prelude::*;

verus! {

/// What the scene query and the hit material gave for the current ray.
#[derive(Clone, Copy, Debug, PartialEq, Eq, Structural)]
pub enum Event {
    /// No surface is hit: the ray sees the background.
    Miss,
    /// A surface is hit and its material absorbs the ray.
    Absorbed,
    /// A surface is hit and its material scatters the ray.
    Scattered,
}

/// What the integrator does next.
#[derive(Clone, Copy, Debug, PartialEq, Eq, Structural)]
pub enum Step {
    /// Query the scene with the current ray; the payload is the depth left.
    Trace(i32),
    /// Stop: the path ends on the background color.
    Background,
    /// Stop: the path contributes black.
    Black,
}

/// The step for a ray with `depth` bounces left: black once the budget is
/// spent, else a query.
pub open spec fn step_for(depth: int) -> Step {
    if depth <= 0 {
        Step::Black
    } else {
        Step::Trace(depth as i32)
    }
}

/// How a path that has `depth` bounces left ends, given the events the
/// queries return in turn; `None` while the events run out first. The
/// second component counts the scatterings before the end.
pub open spec fn path_end(depth: int, events: Seq<Event>) -> Option<(Step, nat)>
    decreases events.len(),
{
    if depth <= 0 {
        Some((Step::Black, 0))
    } else if events.len() == 0 {
        None
    } else {
        match events[0] {
            Event::Miss => Some((Step::Background, 0)),
            Event::Absorbed => Some((Step::Black, 0)),
            Event::Scattered => match path_end(depth - 1, events.drop_first()) {
                Some((end, n)) => Some((end, n + 1)),
                None => None,
            },
        }
    }
}

/// The first step of a path with a budget of `max_depth` bounces.
pub fn begin(max_depth: i32) -> (s: Step)
    ensures
        s == step_for(max_depth as int),
{
    if max_depth <= 0 {
        Step::Black
    } else {
        Step::Trace(max_depth)
    }
}

/// The step after a query at `depth` returned `event`: a miss ends on the
/// background, an absorption ends black, and a scattering goes on with one
/// bounce less.
pub fn advance(depth: i32, event: Event) -> (s: Step)
    requires
        depth > 0,
    ensures
        s == (match event {
            Event::Miss => Step::Background,
            Event::Absorbed => Step::Black,
            Event::Scattered => step_for(depth - 1),
        }),
{
    match event {
        Event::Miss => Step::Background,
        Event::Absorbed => Step::Black,
        Event::Scattered => begin(depth - 1),
    }
}

/// A path with a budget of `depth` bounces ends after at most `depth`
/// queries, whatever they return: it scatters at most `depth` times, and
/// fewer when it ends on the background.
pub proof fn lemma_path_ends_within_budget(depth: int, events: Seq<Event>)
    requires
        events.len() >= depth,
    ensures
        path_end(depth, events) is Some,
        path_end(depth, events) matches Some((_, n)) && n <= (if depth > 0 { depth } else { 0 }),
        path_end(depth, events) matches Some((Step::Background, n)) ==> n < depth,
    decreases events.len(),
{
    if depth > 0 {
        lemma_path_ends_within_budget(depth - 1, events.drop_first());
    }
}

} // verus!
