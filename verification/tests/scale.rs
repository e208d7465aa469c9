use reimv::output::{buffer_spec, pixel_size, BufferSpec, Output};
use reimv::state::{State, SurfaceEvent};
use reimv::window::Effect;

#[test]
fn scale_rounding() {
    // 399 * 180 / 120 = 598.5
    assert_eq!(pixel_size(399, 180), 599);
}

#[test]
fn pixel_size_rounds_to_nearest() {
    assert_eq!(pixel_size(400, 120), 400);
    assert_eq!(pixel_size(400, 180), 600);
    assert_eq!(pixel_size(1, 59), 0);
    assert_eq!(pixel_size(1, 60), 1);
    assert_eq!(pixel_size(3, 100), 3);
    assert_eq!(pixel_size(0, 240), 0);
    assert_eq!(pixel_size(u32::MAX, u64::MAX), (u32::MAX as u128 * u64::MAX as u128 + 60) / 120);
}

#[test]
fn buffer_has_four_bytes_to_the_pixel() {
    assert_eq!(buffer_spec(400, 300, 120), Some(BufferSpec { width: 400, height: 300, stride: 1600 }));
    assert_eq!(buffer_spec(400, 300, 180), Some(BufferSpec { width: 600, height: 450, stride: 2400 }));
    assert_eq!(buffer_spec(399, 1, 180), Some(BufferSpec { width: 599, height: 2, stride: 2396 }));
    assert_eq!(BufferSpec::for_size(7, 9), Some(BufferSpec { width: 7, height: 9, stride: 28 }));
}

#[test]
fn buffer_that_does_not_fit_is_refused() {
    assert_eq!(BufferSpec::for_size(0x3fff_ffff, 1).map(|b| b.stride), Some(0xffff_fffc));
    assert_eq!(BufferSpec::for_size(0x4000_0000, 1), None);
    assert_eq!(buffer_spec(0x4000_0000, 1, 120), None);
    assert_eq!(buffer_spec(1, u32::MAX, 240), None);
    assert_eq!(buffer_spec(u32::MAX, u32::MAX, u64::MAX), None);
}

fn state_on_outputs(scales: &[(u32, u32, u32)]) -> State {
    // (registry name, identity, scale)
    let mut state = State::new();
    for &(name, id, scale) in scales {
        state.bind_output(name, id, 4);
        state.output_scaled(id, scale);
    }
    state
}

#[test]
fn new_output_has_scale_one() {
    let mut state = State::new();
    state.bind_output(7, 30, 4);
    assert_eq!(state.outputs, vec![Output { reg_name: 7, id: 30, version: 4, scale: 1 }]);
}

#[test]
fn int_scale_defaults_to_one() {
    let state = state_on_outputs(&[(1, 10, 2), (2, 11, 3)]);
    assert_eq!(state.window.get_int_scale(&state), 1);
}

#[test]
fn int_scale_is_the_greatest_scale_of_overlapped_outputs() {
    let mut state = state_on_outputs(&[(1, 10, 2), (2, 11, 3), (3, 12, 5)]);
    state.surface_event(SurfaceEvent::Enter { output: 10 });
    assert_eq!(state.window.get_int_scale(&state), 2);
    state.surface_event(SurfaceEvent::Enter { output: 11 });
    assert_eq!(state.window.get_int_scale(&state), 3);
    state.surface_event(SurfaceEvent::Leave { output: 11 });
    assert_eq!(state.window.get_int_scale(&state), 2);
}

#[test]
fn int_scale_ignores_identities_that_are_not_in_the_table() {
    let mut state = state_on_outputs(&[(1, 10, 2)]);
    state.surface_event(SurfaceEvent::Enter { output: 99 });
    assert_eq!(state.window.get_int_scale(&state), 1);
}

#[test]
fn fractional_scale_wins_and_is_rounded_up() {
    let mut state = state_on_outputs(&[(1, 10, 3)]);
    state.surface_event(SurfaceEvent::Enter { output: 10 });
    state.preferred_scale(180);
    assert_eq!(state.window.get_int_scale(&state), 2);
    state.preferred_scale(120);
    assert_eq!(state.window.get_int_scale(&state), 1);
    state.preferred_scale(121);
    assert_eq!(state.window.get_int_scale(&state), 2);
    state.preferred_scale(u32::MAX);
    assert_eq!(state.window.get_int_scale(&state), 35791395);
}

#[test]
fn output_membership_removal() {
    let mut state = state_on_outputs(&[(1, 10, 2), (2, 11, 3)]);
    state.surface_event(SurfaceEvent::Enter { output: 10 });
    state.surface_event(SurfaceEvent::Enter { output: 11 });
    assert_eq!(state.window.get_int_scale(&state), 3);
    state.global_removed(2);
    assert_eq!(state.window.get_int_scale(&state), 2);
    assert!(!state.window.outputs.contains(&11));
    state.global_removed(1);
    assert_eq!(state.window.get_int_scale(&state), 1);
    assert!(state.window.outputs.is_empty());
    assert!(state.outputs.is_empty());
}

#[test]
fn removed_output_is_replaced_by_the_last() {
    let mut state = state_on_outputs(&[(1, 10, 2), (2, 11, 3), (3, 12, 4)]);
    let effects = state.global_removed(1);
    assert_eq!(effects, vec![Effect::ReleaseOutput { id: 10 }]);
    assert_eq!(
        state.outputs,
        vec![
            Output { reg_name: 3, id: 12, version: 4, scale: 4 },
            Output { reg_name: 2, id: 11, version: 4, scale: 3 },
        ]
    );
}

#[test]
fn old_outputs_are_not_released() {
    let mut state = State::new();
    state.bind_output(1, 10, 2);
    state.bind_output(2, 11, 3);
    assert_eq!(state.global_removed(1), vec![]);
    assert_eq!(state.global_removed(2), vec![Effect::ReleaseOutput { id: 11 }]);
}

#[test]
fn removal_of_an_unknown_global_changes_nothing() {
    let mut state = state_on_outputs(&[(1, 10, 2)]);
    state.surface_event(SurfaceEvent::Enter { output: 10 });
    assert_eq!(state.global_removed(5), vec![]);
    assert_eq!(state.outputs.len(), 1);
    assert!(state.window.outputs.contains(&10));
}

#[test]
fn output_index_finds_the_first() {
    let mut state = State::new();
    state.bind_output(1, 10, 4);
    state.bind_output(2, 11, 4);
    state.bind_output(2, 12, 4);
    assert_eq!(state.output_index(11), Some(1));
    assert_eq!(state.output_index(13), None);
    assert_eq!(state.output_index_by_name(2), Some(1));
    assert_eq!(state.output_index_by_name(9), None);
}
