use snrt::integrator::{search_interval, PathEvent, PathState, MAX_BOUNCE};
use snrt::world::World;

#[test]
fn past_cutoff_is_black() {
    assert_eq!(PathState::start(51), PathState::Black);
    assert_eq!(PathState::start(1000), PathState::Black);
    assert_eq!(PathState::start(50), PathState::Tracing { bounce: 50 });
    assert_eq!(PathState::start(0), PathState::Tracing { bounce: 0 });
}

#[test]
fn empty_world_ends_in_sky() {
    let w = World::new();
    let nearest = w.trace(&vec![]);
    let e = PathEvent::from_trace(nearest, true);
    assert_eq!(e, PathEvent::Miss);
    assert_eq!(PathState::start(0).advance(e), PathState::Sky);
}

#[test]
fn events_from_trace() {
    assert_eq!(PathEvent::from_trace(None, false), PathEvent::Miss);
    assert_eq!(PathEvent::from_trace(Some(3), false), PathEvent::Absorbed);
    assert_eq!(PathEvent::from_trace(Some(0), true), PathEvent::Scattered);
}

#[test]
fn steps_follow_events() {
    let s = PathState::start(7);
    assert_eq!(s.advance(PathEvent::Miss), PathState::Sky);
    assert_eq!(s.advance(PathEvent::Absorbed), PathState::Black);
    assert_eq!(s.advance(PathEvent::Scattered), PathState::Tracing { bounce: 8 });
    assert_eq!(PathState::Sky.advance(PathEvent::Scattered), PathState::Sky);
    assert_eq!(PathState::Black.advance(PathEvent::Miss), PathState::Black);
    assert!(PathState::Sky.is_done());
    assert!(!s.is_done());
}

#[test]
fn path_of_scatters_ends_after_cutoff() {
    let mut s = PathState::start(0);
    let mut steps = 0;
    while !s.is_done() {
        s = s.advance(PathEvent::Scattered);
        steps += 1;
    }
    assert_eq!(s, PathState::Black);
    assert_eq!(steps, MAX_BOUNCE + 1);
}

#[test]
fn search_interval_values() {
    let (lo, hi) = search_interval();
    assert_eq!(f32::from_bits(lo.bits), 0.001);
    assert_eq!(f32::from_bits(hi.bits), 100000.0);
}
