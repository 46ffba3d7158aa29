use cuervo::glue::{AnimationState, Coordinates, HostTrait, Scale, WindowCallbacks};
use cuervo::debug_display::DebugDisplay;
use cuervo::version::{user_agent_string, version_string};
use cuervo::waker::WakeSignal;

/// A host that records every animation flag it is handed.
struct RecordingHost {
    log: Vec<bool>,
}

impl HostTrait for RecordingHost {
    fn on_animating_changed(&mut self, animating: bool) {
        self.log.push(animating);
    }
}

fn adapter_for(cols: i32, rows: i32) -> WindowCallbacks<RecordingHost> {
    let coords = Coordinates::new(0, 0, cols, rows, 1, 1);
    WindowCallbacks::new(RecordingHost { log: Vec::new() }, coords, Scale { numer: 1, denom: 20 })
}

#[test]
fn geometry_is_stable_across_repeated_queries() {
    let w = adapter_for(80, 24);
    let a = w.get_coordinates();
    let b = w.get_coordinates();
    let c = w.get_coordinates();
    assert_eq!(a, b);
    assert_eq!(b, c);
}

#[test]
fn geometry_reports_the_stored_values() {
    let coords = Coordinates::new(2, 3, 80, 24, 1, 1);
    let w = WindowCallbacks::new(
        RecordingHost { log: Vec::new() },
        coords,
        Scale { numer: 1, denom: 20 },
    );
    let g = w.get_coordinates();
    assert_eq!(g.viewport.min.x, 2);
    assert_eq!(g.viewport.min.y, 3);
    assert_eq!(g.viewport.max.x, 82);
    assert_eq!(g.viewport.max.y, 27);
    assert_eq!(g.framebuffer.width, 1);
    assert_eq!(g.framebuffer.height, 1);
    assert_eq!(g.window_size.width, 80);
    assert_eq!(g.window_size.height, 24);
    assert_eq!(g.window_origin.x, 0);
    assert_eq!(g.window_origin.y, 0);
    assert_eq!(g.screen, g.window_size);
    assert_eq!(g.screen_avail, g.window_size);
    assert_eq!(g.hidpi_factor, Scale { numer: 1, denom: 20 });
}

#[test]
fn resize_changes_the_report_and_notifications_do_not() {
    let mut w = adapter_for(80, 24);
    let before = w.get_coordinates();
    w.set_animation_state(AnimationState::Animating);
    w.set_animation_state(AnimationState::Idle);
    assert_eq!(w.get_coordinates(), before);
    w.set_coordinates(Coordinates::new(0, 0, 100, 40, 1, 1));
    let after = w.get_coordinates();
    assert_ne!(after, before);
    assert_eq!(after.window_size.width, 100);
    assert_eq!(after.window_size.height, 40);
}

#[test]
fn animation_transitions_are_forwarded_verbatim() {
    let coords = Coordinates::new(0, 0, 80, 24, 1, 1);
    let mut w = WindowCallbacks::new(
        RecordingHost { log: Vec::new() },
        coords,
        Scale { numer: 1, denom: 20 },
    );
    w.set_animation_state(AnimationState::Animating);
    w.set_animation_state(AnimationState::Animating);
    w.set_animation_state(AnimationState::Idle);
    let host = w.into_host();
    assert_eq!(host.log, vec![true, true, false]);
}

#[test]
fn version_and_user_agent_strings() {
    assert_eq!(version_string(), "cuervo 0.1b");
    assert_eq!(user_agent_string("Mozilla/5.0 (X11; Linux x86_64)"),
        "Mozilla/5.0 (X11; Linux x86_64) Cuervo 0.1b (like w3m)");
}

#[test]
fn wake_token_is_set_and_cleared() {
    let mut w = WakeSignal::new();
    assert!(!w.take());
    w.wake();
    w.wake();
    assert!(w.take());
    assert!(!w.take());
}

#[test]
fn debug_overlay_rotates_after_the_deadline() {
    let mut d = DebugDisplay::new();
    assert!(d.flip.is_none());
    d.push_event("first".to_string(), 1000);
    assert_eq!(d.flip, Some(1100));
    d.push_event("second".to_string(), 1010);
    assert_eq!(d.flip, Some(1100));
    assert_eq!(d.queue.len(), 2);
    d.rotate(1050);
    assert_eq!(d.queue.len(), 2);
    d.rotate(1101);
    assert_eq!(d.queue.len(), 1);
    assert_eq!(d.queue.front().map(|s| s.as_str()), Some("second"));
    assert_eq!(d.flip, Some(1201));
    d.rotate(1300);
    assert_eq!(d.queue.len(), 0);
    assert!(d.flip.is_none());
}

#[test]
fn debug_reset_arms_the_freshness_window() {
    assert_eq!(cuervo::debug_display::debug_display_reset(500), Some(600));
}
