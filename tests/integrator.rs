use pts4d::integrator::{trace_step, within_budget, SurfaceEvent, TraceStep, MAX_DEPTH};

const EVENTS: [SurfaceEvent; 3] = [
    SurfaceEvent::Missed,
    SurfaceEvent::Absorbed,
    SurfaceEvent::Scattered,
];

#[test]
fn trace_at_max_depth_is_black_for_any_event() {
    for event in EVENTS {
        assert_eq!(trace_step(MAX_DEPTH, event), TraceStep::Black);
        assert_eq!(trace_step(MAX_DEPTH + 1, event), TraceStep::Black);
        assert_eq!(trace_step(u32::MAX, event), TraceStep::Black);
    }
}

#[test]
fn miss_shows_background() {
    assert_eq!(trace_step(0, SurfaceEvent::Missed), TraceStep::Background);
    assert_eq!(trace_step(MAX_DEPTH - 1, SurfaceEvent::Missed), TraceStep::Background);
}

#[test]
fn absorbing_surface_gives_its_emission_only() {
    assert_eq!(trace_step(3, SurfaceEvent::Absorbed), TraceStep::Emitted);
}

#[test]
fn scatter_traces_one_level_deeper() {
    assert_eq!(
        trace_step(0, SurfaceEvent::Scattered),
        TraceStep::EmittedPlusBounce { depth: 1 }
    );
    assert_eq!(
        trace_step(MAX_DEPTH - 1, SurfaceEvent::Scattered),
        TraceStep::EmittedPlusBounce { depth: MAX_DEPTH }
    );
}

#[test]
fn budget_ends_at_max_depth() {
    assert_eq!(MAX_DEPTH, 8);
    assert!(within_budget(0));
    assert!(within_budget(MAX_DEPTH - 1));
    assert!(!within_budget(MAX_DEPTH));
}

#[test]
fn always_scattering_path_stops_after_max_depth_bounces() {
    let mut depth = 0u32;
    let mut bounces = 0u32;
    loop {
        match trace_step(depth, SurfaceEvent::Scattered) {
            TraceStep::EmittedPlusBounce { depth: next } => {
                depth = next;
                bounces += 1;
            }
            other => {
                assert_eq!(other, TraceStep::Black);
                break;
            }
        }
    }
    assert_eq!(bounces, MAX_DEPTH);
    assert_eq!(depth, MAX_DEPTH);
}
