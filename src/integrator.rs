use vstd::prelude::*;

verus! {

/// Number of bounces after which a path is cut off and carries no more light.
pub const MAX_DEPTH: u32 = 8;

/// What the closest surface along a ray did with it.
#[derive(Clone, Copy, Debug, PartialEq, Eq, Structural)]
pub enum SurfaceEvent {
    /// The ray left the scene without meeting any primitive.
    Missed,
    /// The ray met a surface whose material did not scatter it.
    Absorbed,
    /// The ray met a surface whose material sent out a scattered ray.
    Scattered,
}

/// How the radiance carried back along a ray at one depth is made up.
#[derive(Clone, Copy, Debug, PartialEq, Eq, Structural)]
pub enum TraceStep {
    /// The bounce budget is spent: no light.
    Black,
    /// The ray escaped: the background seen in its direction.
    Background,
    /// The light the struck surface emits, and nothing more.
    Emitted,
    /// The light the struck surface emits, plus the attenuated radiance
    /// traced along the scattered ray at the next depth, `depth`.
    EmittedPlusBounce { depth: u32 },
}

/// The decision of one step of the path tracer at `depth`, given what the ray met.
pub open spec fn trace_step_spec(depth: nat, event: SurfaceEvent) -> TraceStep {
    if depth >= MAX_DEPTH {
        TraceStep::Black
    } else {
        match event {
            SurfaceEvent::Missed => TraceStep::Background,
            SurfaceEvent::Absorbed => TraceStep::Emitted,
            SurfaceEvent::Scattered => TraceStep::EmittedPlusBounce { depth: (depth + 1) as u32 },
        }
    }
}

/// Whether a ray at `depth` is still traced; past the budget no surface is
/// looked up at all.
pub fn within_budget(depth: u32) -> (r: bool)
    ensures
        r == (depth < MAX_DEPTH),
{
    depth < MAX_DEPTH
}

/// One step of the path tracer: at `depth`, with the ray having met `event`,
/// says how the returned radiance is made up.
pub fn trace_step(depth: u32, event: SurfaceEvent) -> (step: TraceStep)
    ensures
        step == trace_step_spec(depth as nat, event),
{
    if depth >= MAX_DEPTH {
        TraceStep::Black
    } else {
        match event {
            SurfaceEvent::Missed => TraceStep::Background,
            SurfaceEvent::Absorbed => TraceStep::Emitted,
            SurfaceEvent::Scattered => TraceStep::EmittedPlusBounce { depth: depth + 1 },
        }
    }
}

/// A ray traced at the maximal depth, or deeper, returns no light, whatever
/// the scene and whatever the ray meets.
pub proof fn lemma_cutoff_is_black(depth: nat, event: SurfaceEvent)
    requires
        depth >= MAX_DEPTH,
    ensures
        trace_step_spec(depth, event) == TraceStep::Black,
{
}

/// Each bounce goes one level deeper and never past the maximal depth, so a
/// path spawns at most `MAX_DEPTH` recursive traces before it is cut off.
pub proof fn lemma_bounce_deepens(depth: nat, event: SurfaceEvent)
    ensures
        trace_step_spec(depth, event) matches TraceStep::EmittedPlusBounce { depth: next } ==> {
            &&& next == depth + 1
            &&& next <= MAX_DEPTH
        },
{
}

} // verus!
