use vstd::prelude::*;

use crate::binary32::Binary32;
use crate::world::{no_candidate, World};

verus! {

/// Bounces past this depth end the path in black.
pub const MAX_BOUNCE: u32 = 50;

/// Bit pattern of `0.001`, the lower end of the parameter interval a bounce
/// searches: it keeps a scattered ray from meeting its own origin.
pub const T_MIN_BITS: u32 = 0x3a83_126f;

/// Bit pattern of `100000.0`, the upper end of that interval.
pub const T_MAX_BITS: u32 = 0x47c3_5000;

/// The parameter interval searched at every bounce.
pub fn search_interval() -> (r: (Binary32, Binary32))
    ensures
        r.0.bits == T_MIN_BITS,
        r.1.bits == T_MAX_BITS,
{
    (Binary32::from_bits(T_MIN_BITS), Binary32::from_bits(T_MAX_BITS))
}

/// What one bounce found.
#[derive(Clone, Copy, Debug, PartialEq, Eq, Structural)]
pub enum PathEvent {
    /// The ray met nothing and escaped to the sky.
    Miss,
    /// The ray met a surface that absorbed it.
    Absorbed,
    /// The ray met a surface that sent out a new ray.
    Scattered,
}

/// Where a path stands. The color a path carries is the product of the
/// attenuations of its scatters, times black or the sky once it ends.
#[derive(Clone, Copy, Debug, PartialEq, Eq, Structural)]
pub enum PathState {
    /// A ray is to be traced at this bounce depth.
    Tracing { bounce: u32 },
    /// The path ended without light.
    Black,
    /// The path escaped to the sky gradient.
    Sky,
}

pub open spec fn start_state(bounce: u32) -> PathState {
    if bounce > MAX_BOUNCE {
        PathState::Black
    } else {
        PathState::Tracing { bounce }
    }
}

pub open spec fn next_state(s: PathState, e: PathEvent) -> PathState {
    match s {
        PathState::Tracing { bounce } => match e {
            PathEvent::Miss => PathState::Sky,
            PathEvent::Absorbed => PathState::Black,
            PathEvent::Scattered => if bounce >= MAX_BOUNCE {
                PathState::Black
            } else {
                PathState::Tracing { bounce: (bounce + 1) as u32 }
            },
        },
        _ => s,
    }
}

pub open spec fn event_of(nearest: Option<usize>, scattered: bool) -> PathEvent {
    match nearest {
        None => PathEvent::Miss,
        Some(_) => if scattered {
            PathEvent::Scattered
        } else {
            PathEvent::Absorbed
        },
    }
}

impl PathEvent {
    /// The event of a bounce, from the nearest hit and, when there is one,
    /// whether its material scattered the ray.
    pub fn from_trace(nearest: Option<usize>, scattered: bool) -> (r: PathEvent)
        ensures
            r == event_of(nearest, scattered),
    {
        match nearest {
            None => PathEvent::Miss,
            Some(_) => if scattered {
                PathEvent::Scattered
            } else {
                PathEvent::Absorbed
            },
        }
    }
}

impl PathState {
    /// Where a path entered at bounce depth `bounce` stands: past the cutoff
    /// it is black at once, whatever the scene holds.
    pub fn start(bounce: u32) -> (r: PathState)
        ensures
            r == start_state(bounce),
            bounce > MAX_BOUNCE ==> r == PathState::Black,
    {
        if bounce > MAX_BOUNCE {
            PathState::Black
        } else {
            PathState::Tracing { bounce }
        }
    }

    /// One step of the integrator: a miss ends in the sky, an absorption in
    /// black, and a scatter continues one bounce deeper (or ends in black
    /// past the cutoff). An ended path stays as it is.
    pub fn advance(self, e: PathEvent) -> (r: PathState)
        ensures
            r == next_state(self, e),
    {
        match self {
            PathState::Tracing { bounce } => match e {
                PathEvent::Miss => PathState::Sky,
                PathEvent::Absorbed => PathState::Black,
                PathEvent::Scattered => if bounce >= MAX_BOUNCE {
                    PathState::Black
                } else {
                    PathState::Tracing { bounce: bounce + 1 }
                },
            },
            _ => self,
        }
    }

    /// The path has ended.
    pub fn is_done(&self) -> (r: bool)
        ensures
            r == !(*self is Tracing),
    {
        !matches!(self, PathState::Tracing { .. })
    }
}

/// The state a path reaches from `s` through a sequence of events.
pub open spec fn run(s: PathState, events: Seq<PathEvent>) -> PathState
    decreases events.len(),
{
    if events.len() == 0 {
        s
    } else {
        run(next_state(s, events[0]), events.drop_first())
    }
}

/// Every path ends: from any entry depth, whatever the bounces find, the
/// path has ended after more than `MAX_BOUNCE` steps.
pub proof fn lemma_path_ends(bounce: u32, events: Seq<PathEvent>)
    requires
        events.len() > MAX_BOUNCE,
    ensures
        !(run(start_state(bounce), events) is Tracing),
{
    if bounce > MAX_BOUNCE {
        lemma_ended_stays(PathState::Black, events);
    } else {
        lemma_tracing_ends(bounce, events);
    }
}

proof fn lemma_ended_stays(s: PathState, events: Seq<PathEvent>)
    requires
        !(s is Tracing),
    ensures
        run(s, events) == s,
    decreases events.len(),
{
    if events.len() > 0 {
        lemma_ended_stays(s, events.drop_first());
    }
}

proof fn lemma_tracing_ends(bounce: u32, events: Seq<PathEvent>)
    requires
        bounce <= MAX_BOUNCE,
        events.len() > MAX_BOUNCE - bounce,
    ensures
        !(run(PathState::Tracing { bounce }, events) is Tracing),
    decreases events.len(),
{
    let next = next_state(PathState::Tracing { bounce }, events[0]);
    if next is Tracing {
        lemma_tracing_ends((bounce + 1) as u32, events.drop_first());
    } else {
        lemma_ended_stays(next, events.drop_first());
    }
}

/// A path entered past the bounce cutoff is black, whatever the scene.
pub proof fn lemma_past_cutoff_is_black(bounce: u32)
    requires
        bounce > MAX_BOUNCE,
    ensures
        start_state(bounce) == PathState::Black,
{
}

/// In a world without entities every trace misses, so a path entered at
/// depth 0 ends in the sky after its first step, whatever the material
/// would have done.
pub proof fn lemma_empty_world_sees_sky(world: World, hits: Seq<Option<Binary32>>, nearest: Option<usize>, scattered: bool)
    requires
        world.entities@.len() == 0,
        hits.len() == world.entities@.len(),
        nearest matches Some(i) ==> crate::world::is_nearest(hits, i as int),
        nearest is None <==> no_candidate(hits),
    ensures
        nearest is None,
        next_state(start_state(0), event_of(nearest, scattered)) == PathState::Sky,
{
}

} // verus!
