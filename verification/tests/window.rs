use reimv::state::{State, SurfaceEvent};
use reimv::transform::{Action, ImageTransform, ONE};
use reimv::window::{Effect, Frame, Window};
use reimv::wire::{decode_states, has_fullscreen};

fn mapped() -> State {
    let mut state = State::new();
    state.surface_configured(1);
    state
}

fn frame(token: u32) -> Frame {
    Frame { width: 400, height: 300, scale120: 120, transform: ImageTransform::identity(), token }
}

#[test]
fn new_window_is_unmapped_400_by_300() {
    let w = Window::new();
    assert!(!w.mapped);
    assert!(!w.closed);
    assert!(!w.fullscreen);
    assert!(!w.throttled);
    assert_eq!(w.throttle, None);
    assert_eq!(w.scale120, None);
    assert_eq!((w.width, w.height), (400, 300));
    assert!(w.outputs.is_empty());
}

#[test]
fn new_state_is_empty() {
    let state = State::new();
    assert!(state.outputs.is_empty());
    assert!(state.pointers.is_empty());
    assert_eq!(state.img_transform, ImageTransform { x: 0, y: 0, scale: ONE });
    assert_eq!(state.move_transaction, None);
}

#[test]
fn unmapped_window_draws_nothing() {
    let mut state = State::new();
    assert_eq!(Window::frame(&mut state), None);
    assert_eq!(state.handle_action(Action::MoveLeft), vec![]);
    assert_eq!(state.surface_event(SurfaceEvent::Other), vec![]);
    assert!(!state.window.throttled);
    assert_eq!(state.window.throttle, None);
}

#[test]
fn first_configure_maps_the_window_and_draws() {
    let mut state = State::new();
    let effects = state.surface_configured(17);
    assert_eq!(
        effects,
        vec![Effect::AckConfigure { serial: 17 }, Effect::AttachBackground, Effect::Render(frame(0))]
    );
    assert!(state.window.mapped);
    assert_eq!(state.window.throttle, Some(0));
}

#[test]
fn later_configures_are_acknowledged_only() {
    let mut state = mapped();
    assert_eq!(state.surface_configured(18), vec![Effect::AckConfigure { serial: 18 }]);
    assert!(state.window.throttled);
    state.frame_done(0);
    state.frame_done(1);
    assert_eq!(
        state.surface_configured(19),
        vec![Effect::AckConfigure { serial: 19 }, Effect::Render(frame(2))]
    );
}

#[test]
fn frame_coalescing() {
    let mut state = mapped();
    assert_eq!(state.window.throttle, Some(0));
    for _ in 0..5 {
        assert_eq!(Window::frame(&mut state), None);
        assert!(state.window.throttled);
        assert_eq!(state.window.throttle, Some(0));
    }
    assert_eq!(state.frame_done(0), vec![Effect::Render(frame(1))]);
    assert!(!state.window.throttled);
    assert_eq!(state.window.throttle, Some(1));
    assert_eq!(state.frame_done(1), vec![]);
    assert_eq!(state.window.throttle, None);
}

#[test]
fn no_redraw_without_a_request() {
    let mut state = mapped();
    assert_eq!(state.frame_done(0), vec![]);
    assert_eq!(state.window.throttle, None);
    assert!(!state.window.throttled);
}

#[test]
fn frame_takes_the_state_as_it_is() {
    let mut state = mapped();
    state.frame_done(0);
    state.bind_output(1, 10, 4);
    state.output_scaled(10, 2);
    state.img_transform = ImageTransform { x: 5, y: 6, scale: 7 };
    state.window.width = 640;
    state.window.height = 480;
    // the surface event itself requests the redraw
    let effects = state.surface_event(SurfaceEvent::Enter { output: 10 });
    assert_eq!(
        effects,
        vec![Effect::Render(Frame {
            width: 640,
            height: 480,
            scale120: 240,
            transform: ImageTransform { x: 5, y: 6, scale: 7 },
            token: 1,
        })]
    );
}

#[test]
fn frame_uses_the_fractional_scale() {
    let mut state = mapped();
    state.frame_done(0);
    let effects = state.preferred_scale(180);
    assert_eq!(effects, vec![Effect::Render(Frame { scale120: 180, ..frame(1) })]);
    assert_eq!(state.window.scale120, Some(180));
}

#[test]
fn same_fractional_scale_is_no_news() {
    let mut state = mapped();
    state.frame_done(0);
    state.preferred_scale(180);
    state.frame_done(1);
    assert_eq!(state.preferred_scale(180), vec![]);
    assert!(!state.window.throttled);
    assert_eq!(state.preferred_scale(150), vec![Effect::Render(Frame { scale120: 150, ..frame(2) })]);
}

#[test]
fn tokens_start_over_after_the_last() {
    let mut state = mapped();
    state.frame_done(0);
    state.window.next_token = u32::MAX;
    assert_eq!(Window::frame(&mut state).map(|f| f.token), Some(u32::MAX));
    state.frame_done(u32::MAX);
    assert_eq!(Window::frame(&mut state).map(|f| f.token), Some(0));
}

#[test]
fn output_scale_redraws_only_for_overlapped_outputs() {
    let mut state = mapped();
    state.frame_done(0);
    state.bind_output(1, 10, 4);
    state.bind_output(2, 11, 4);
    state.surface_event(SurfaceEvent::Enter { output: 10 });
    state.frame_done(1);
    assert_eq!(state.output_scaled(11, 3), vec![]);
    assert_eq!(state.outputs[1].scale, 3);
    assert_eq!(state.output_scaled(10, 2), vec![Effect::Render(Frame { scale120: 240, ..frame(2) })]);
    assert_eq!(state.outputs[0].scale, 2);
}

#[test]
fn surface_events_track_the_overlapped_outputs() {
    let mut state = State::new();
    state.surface_event(SurfaceEvent::Enter { output: 10 });
    state.surface_event(SurfaceEvent::Enter { output: 11 });
    state.surface_event(SurfaceEvent::Enter { output: 10 });
    assert_eq!(state.window.outputs.len(), 2);
    state.surface_event(SurfaceEvent::Leave { output: 10 });
    assert!(!state.window.outputs.contains(&10));
    assert!(state.window.outputs.contains(&11));
    state.surface_event(SurfaceEvent::Leave { output: 12 });
    assert_eq!(state.window.outputs.len(), 1);
}

#[test]
fn toggle_fullscreen_asks_the_compositor() {
    let mut state = mapped();
    state.frame_done(0);
    assert_eq!(
        state.handle_action(Action::ToggleFullscreen),
        vec![Effect::SetFullscreen, Effect::Render(frame(1))]
    );
    // not applied before the compositor says so
    assert!(!state.window.fullscreen);
    state.window.configure(0, 0, &vec![2]);
    assert!(state.window.fullscreen);
    assert_eq!(state.window.toggle_fullscreen(), Effect::UnsetFullscreen);
    assert_eq!(state.handle_action(Action::ToggleFullscreen), vec![Effect::UnsetFullscreen]);
}

#[test]
fn handle_action_moves_the_image_and_redraws() {
    let mut state = mapped();
    state.frame_done(0);
    let effects = state.handle_action(Action::MoveLeft);
    let moved = ImageTransform { x: 1310720, y: 0, scale: ONE };
    assert_eq!(state.img_transform, moved);
    assert_eq!(effects, vec![Effect::Render(Frame { transform: moved, ..frame(1) })]);
}

#[test]
fn configure_takes_positive_sizes_only() {
    let mut w = Window::new();
    w.configure(800, 0, &vec![]);
    assert_eq!((w.width, w.height), (800, 300));
    w.configure(-5, 600, &vec![]);
    assert_eq!((w.width, w.height), (800, 600));
    w.configure(0, 0, &vec![]);
    assert_eq!((w.width, w.height), (800, 600));
    w.configure(i32::MAX, 1, &vec![]);
    assert_eq!((w.width, w.height), (i32::MAX as u32, 1));
}

#[test]
fn configure_follows_the_fullscreen_state() {
    let mut w = Window::new();
    w.configure(0, 0, &vec![1, 4, 2]);
    assert!(w.fullscreen);
    w.configure(0, 0, &vec![1, 4]);
    assert!(!w.fullscreen);
    w.configure(0, 0, &vec![2]);
    assert!(w.fullscreen);
    w.configure(0, 0, &vec![]);
    assert!(!w.fullscreen);
    // a number that names no state at all
    w.configure(0, 0, &vec![1000, 0]);
    assert!(!w.fullscreen);
}

fn state_bytes(states: &[u32]) -> Vec<u8> {
    let mut bytes = Vec::new();
    for s in states {
        bytes.extend_from_slice(&s.to_ne_bytes());
    }
    bytes
}

#[test]
fn configure_bytes_decodes_the_state_list() {
    let mut w = Window::new();
    w.configure_bytes(1024, 768, &state_bytes(&[4, 2]));
    assert!(w.fullscreen);
    assert_eq!((w.width, w.height), (1024, 768));
    w.configure_bytes(0, 0, &state_bytes(&[4, 1]));
    assert!(!w.fullscreen);
    assert_eq!((w.width, w.height), (1024, 768));
    // 0x0200_0000 is 2 in the other byte order only
    w.configure_bytes(0, 0, &state_bytes(&[0x0200_0000]));
    assert!(!w.fullscreen);
}

#[test]
fn state_list_ignores_trailing_bytes() {
    let mut bytes = state_bytes(&[1, 2, 3]);
    assert_eq!(decode_states(&bytes), vec![1, 2, 3]);
    bytes.extend_from_slice(&[2, 0, 0]);
    assert_eq!(decode_states(&bytes), vec![1, 2, 3]);
    assert_eq!(decode_states(&[2, 0, 0]), vec![]);
    assert_eq!(decode_states(&[]), vec![]);
    assert_eq!(decode_states(&state_bytes(&[0x0102_0304, u32::MAX])), vec![0x0102_0304, u32::MAX]);
}

#[test]
fn fullscreen_is_state_two() {
    assert!(has_fullscreen(&vec![2]));
    assert!(has_fullscreen(&vec![1, 3, 2, 4]));
    assert!(!has_fullscreen(&vec![1, 3, 4, 5, 6, 7, 8, 9]));
    assert!(!has_fullscreen(&vec![0]));
    assert!(!has_fullscreen(&vec![]));
}

#[test]
fn close_breaks_the_dispatch_loop() {
    let mut state = mapped();
    assert_eq!(state.close_requested(), vec![Effect::BreakDispatch]);
    assert!(state.window.closed);
    assert!(state.window.mapped);
}
