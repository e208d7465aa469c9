use reimv::pointer::{
    Axis, ButtonState, MoveTransaction, PinchEvent, PinchGesture, PinchGestureState, Pointer,
    PointerEvent, LEFT_PTR_BUTTON,
};
use reimv::state::{State, SurfaceEvent};
use reimv::transform::{ImageTransform, ONE};
use reimv::window::{CursorShape, Effect, Frame};

const SEAT_A: u32 = 100;
const SEAT_B: u32 = 200;
const PTR_A: u32 = 101;
const PTR_B: u32 = 201;
const PINCH_A: u32 = 102;

/// A mapped window with no frame outstanding and the pointers of two seats.
fn two_seats() -> State {
    let mut state = State::new();
    state.surface_configured(1);
    state.frame_done(0);
    state.pointer_added(SEAT_A, PTR_A, 5, Some(PINCH_A));
    state.pointer_added(SEAT_B, PTR_B, 2, None);
    state
}

fn press() -> PointerEvent {
    PointerEvent::Button { button: LEFT_PTR_BUTTON, state: ButtonState::Pressed }
}

fn release() -> PointerEvent {
    PointerEvent::Button { button: LEFT_PTR_BUTTON, state: ButtonState::Released }
}

fn cursor(pointer: u32, shape: CursorShape, serial: u32) -> Effect {
    Effect::SetCursor { pointer, shape, scale: 1, serial }
}

fn render(transform: ImageTransform, token: u32) -> Effect {
    Effect::Render(Frame { width: 400, height: 300, scale120: 120, transform, token })
}

#[test]
fn added_pointer_starts_at_the_origin() {
    let state = two_seats();
    assert_eq!(
        state.pointers,
        vec![
            Pointer {
                seat: SEAT_A,
                wl: PTR_A,
                version: 5,
                pinch_gesture: Some(PinchGesture { wl: PINCH_A, state: None }),
                enter_serial: 0,
                x: 0,
                y: 0,
            },
            Pointer {
                seat: SEAT_B,
                wl: PTR_B,
                version: 2,
                pinch_gesture: None,
                enter_serial: 0,
                x: 0,
                y: 0,
            },
        ]
    );
}

#[test]
fn pointers_are_found_by_identity_seat_and_gesture() {
    let state = two_seats();
    assert_eq!(state.pointer_index(PTR_B), Some(1));
    assert_eq!(state.pointer_index(SEAT_B), None);
    assert_eq!(state.pointer_index_by_seat(SEAT_A), Some(0));
    assert_eq!(state.pointer_index_by_seat(PTR_A), None);
    assert_eq!(state.pointer_index_by_pinch(PINCH_A), Some(0));
    assert_eq!(state.pointer_index_by_pinch(PTR_B), None);
}

#[test]
fn enter_stores_serial_and_position_and_shows_the_default_cursor() {
    let mut state = two_seats();
    state.bind_output(1, 10, 4);
    state.output_scaled(10, 2);
    state.surface_event(SurfaceEvent::Enter { output: 10 });
    let effects = state.pointer_event(PTR_B, PointerEvent::Enter { serial: 9, surface_x: 256, surface_y: -512 });
    assert_eq!(
        effects,
        vec![Effect::SetCursor { pointer: PTR_B, shape: CursorShape::Default, scale: 2, serial: 9 }]
    );
    assert_eq!(state.pointers[1].enter_serial, 9);
    assert_eq!((state.pointers[1].x, state.pointers[1].y), (256, -512));
    assert_eq!(state.pointers[0].enter_serial, 0);
}

#[test]
fn press_starts_a_move_transaction() {
    let mut state = two_seats();
    state.pointer_event(PTR_A, PointerEvent::Enter { serial: 3, surface_x: 0, surface_y: 0 });
    let effects = state.pointer_event(PTR_A, press());
    assert_eq!(effects, vec![cursor(PTR_A, CursorShape::Move, 3)]);
    assert_eq!(state.move_transaction, Some(MoveTransaction { wl_seat: SEAT_A }));
}

#[test]
fn other_buttons_start_nothing() {
    let mut state = two_seats();
    let effects = state.pointer_event(PTR_A, PointerEvent::Button { button: 273, state: ButtonState::Pressed });
    assert_eq!(effects, vec![]);
    assert_eq!(state.move_transaction, None);
    assert_eq!(state.pointer_event(PTR_A, release()), vec![]);
}

#[test]
fn move_transaction_exclusivity() {
    let mut state = two_seats();
    state.pointer_event(PTR_A, press());
    let owned = Some(MoveTransaction { wl_seat: SEAT_A });
    assert_eq!(state.pointer_event(PTR_B, press()), vec![]);
    assert_eq!(state.move_transaction, owned);
    assert_eq!(state.pointer_event(PTR_B, release()), vec![]);
    assert_eq!(state.move_transaction, owned);
    assert_eq!(state.pointer_event(PTR_B, PointerEvent::Leave), vec![]);
    assert_eq!(state.move_transaction, owned);
    assert_eq!(state.pointer_event(PTR_A, press()), vec![]);
    assert_eq!(state.move_transaction, owned);
    assert_eq!(state.pointer_event(PTR_A, release()), vec![cursor(PTR_A, CursorShape::Default, 0)]);
    assert_eq!(state.move_transaction, None);
    assert_eq!(state.pointer_event(PTR_B, press()), vec![cursor(PTR_B, CursorShape::Move, 0)]);
    assert_eq!(state.move_transaction, Some(MoveTransaction { wl_seat: SEAT_B }));
}

#[test]
fn leave_of_the_owner_ends_the_move_transaction() {
    let mut state = two_seats();
    state.pointer_event(PTR_A, press());
    assert_eq!(state.pointer_event(PTR_A, PointerEvent::Leave), vec![]);
    assert_eq!(state.move_transaction, None);
}

#[test]
fn motion_of_the_owner_pans() {
    let mut state = two_seats();
    state.pointer_event(PTR_A, PointerEvent::Motion { surface_x: 10 * 256, surface_y: 20 * 256 });
    assert_eq!(state.img_transform, ImageTransform::identity());
    state.pointer_event(PTR_A, press());
    let effects = state.pointer_event(PTR_A, PointerEvent::Motion { surface_x: 13 * 256, surface_y: 18 * 256 + 1 });
    let moved = ImageTransform { x: 3 * ONE, y: -2 * ONE + 256, scale: ONE };
    assert_eq!(state.img_transform, moved);
    assert_eq!(effects, vec![render(moved, 1)]);
    assert_eq!((state.pointers[0].x, state.pointers[0].y), (13 * 256, 18 * 256 + 1));
}

#[test]
fn motion_of_another_seat_moves_only_its_pointer() {
    let mut state = two_seats();
    state.pointer_event(PTR_A, press());
    let effects = state.pointer_event(PTR_B, PointerEvent::Motion { surface_x: 999, surface_y: 7 });
    assert_eq!(effects, vec![]);
    assert_eq!(state.img_transform, ImageTransform::identity());
    assert_eq!((state.pointers[1].x, state.pointers[1].y), (999, 7));
}

#[test]
fn motion_across_the_whole_range_does_not_overflow() {
    let mut state = two_seats();
    state.pointer_event(PTR_A, PointerEvent::Motion { surface_x: i32::MIN, surface_y: i32::MAX });
    state.pointer_event(PTR_A, press());
    state.pointer_event(PTR_A, PointerEvent::Motion { surface_x: i32::MAX, surface_y: i32::MIN });
    assert_eq!(state.img_transform.x, (u32::MAX as i64) * 256);
    assert_eq!(state.img_transform.y, -(u32::MAX as i64) * 256);
}

#[test]
fn vertical_scroll_zooms_around_the_pointer() {
    let mut state = two_seats();
    state.pointer_event(PTR_A, PointerEvent::Motion { surface_x: 100 * 256, surface_y: 50 * 256 });
    let effects = state.pointer_event(PTR_A, PointerEvent::Axis { axis: Axis::VerticalScroll, value: 10 * 256 });
    let zoomed = ImageTransform { x: 655300, y: 327650, scale: 58983 };
    assert_eq!(state.img_transform, zoomed);
    assert_eq!(effects, vec![render(zoomed, 1)]);
}

#[test]
fn horizontal_scroll_does_nothing() {
    let mut state = two_seats();
    let effects = state.pointer_event(PTR_A, PointerEvent::Axis { axis: Axis::HorizontalScroll, value: 10 * 256 });
    assert_eq!(effects, vec![]);
    assert_eq!(state.img_transform, ImageTransform::identity());
}

#[test]
fn scroll_does_not_fight_the_pan_of_another_seat() {
    let mut state = two_seats();
    state.pointer_event(PTR_A, press());
    let scroll = PointerEvent::Axis { axis: Axis::VerticalScroll, value: 10 * 256 };
    assert_eq!(state.pointer_event(PTR_B, scroll), vec![]);
    assert_eq!(state.img_transform, ImageTransform::identity());
    // the owner itself may zoom while it pans
    assert_eq!(state.pointer_event(PTR_A, scroll).len(), 1);
    assert_eq!(state.img_transform.scale, 58983);
}

#[test]
fn other_pointer_events_change_nothing() {
    let mut state = two_seats();
    assert_eq!(state.pointer_event(PTR_A, PointerEvent::Other), vec![]);
    assert_eq!(state.img_transform, ImageTransform::identity());
    assert_eq!(state.move_transaction, None);
}

#[test]
fn pinch_begins_with_two_fingers_only() {
    let mut state = two_seats();
    assert_eq!(state.pinch_event(PINCH_A, PinchEvent::Begin { fingers: 3 }), vec![]);
    assert_eq!(state.pointers[0].pinch_gesture, Some(PinchGesture { wl: PINCH_A, state: None }));
    state.img_transform = ImageTransform { x: 1, y: 2, scale: 3 };
    let effects = state.pinch_event(PINCH_A, PinchEvent::Begin { fingers: 2 });
    assert_eq!(effects, vec![cursor(PTR_A, CursorShape::Move, 0)]);
    assert_eq!(
        state.pointers[0].pinch_gesture,
        Some(PinchGesture {
            wl: PINCH_A,
            state: Some(PinchGestureState {
                prev_scale: 256,
                fallback_transform: ImageTransform { x: 1, y: 2, scale: 3 },
            }),
        })
    );
}

#[test]
fn pinch_update_pans_then_zooms() {
    let mut state = two_seats();
    state.pointer_event(PTR_A, PointerEvent::Motion { surface_x: 100 * 256, surface_y: 50 * 256 });
    state.pinch_event(PINCH_A, PinchEvent::Begin { fingers: 2 });
    // scale 1.0 -> 0.9 is a zoom of magnitude 10 after the pan; 0.1 is 25.6 in 24.8, cut to 26
    let effects = state.pinch_event(PINCH_A, PinchEvent::Update { dx: 512, dy: -256, scale: 230 });
    let panned = ImageTransform { x: 2 * ONE, y: -ONE, scale: ONE };
    let expected = panned.zoom(100 * ONE, 50 * ONE, 26 * 100 * 256).unwrap();
    assert_eq!(state.img_transform, expected);
    assert_eq!(effects, vec![render(expected, 1)]);
    assert_eq!(state.pointers[0].pinch_gesture.unwrap().state.unwrap().prev_scale, 230);
    // growing again: magnitude is minus one hundred times the difference
    state.pinch_event(PINCH_A, PinchEvent::Update { dx: 0, dy: 0, scale: 256 });
    assert_eq!(Some(state.img_transform), expected.zoom(100 * ONE, 50 * ONE, -26 * 100 * 256));
}

#[test]
fn pinch_update_without_a_gesture_changes_nothing() {
    let mut state = two_seats();
    assert_eq!(state.pinch_event(PINCH_A, PinchEvent::Update { dx: 512, dy: 512, scale: 300 }), vec![]);
    assert_eq!(state.pinch_event(PINCH_A, PinchEvent::End { cancelled: 1 }), vec![]);
    assert_eq!(state.pinch_event(PINCH_A, PinchEvent::Other), vec![]);
    assert_eq!(state.img_transform, ImageTransform::identity());
}

#[test]
fn pinch_cancellation_rollback() {
    let mut state = two_seats();
    let before = ImageTransform { x: 17 * ONE + 3, y: -4 * ONE, scale: 3 * ONE / 2 };
    state.img_transform = before;
    state.pointer_event(PTR_A, PointerEvent::Motion { surface_x: 30 * 256, surface_y: 40 * 256 });
    state.pinch_event(PINCH_A, PinchEvent::Begin { fingers: 2 });
    state.pinch_event(PINCH_A, PinchEvent::Update { dx: 100, dy: 200, scale: 300 });
    state.pinch_event(PINCH_A, PinchEvent::Update { dx: -7, dy: 9, scale: 512 });
    state.pinch_event(PINCH_A, PinchEvent::Update { dx: 0, dy: 0, scale: 128 });
    assert_ne!(state.img_transform, before);
    state.frame_done(1);
    state.frame_done(2);
    let effects = state.pinch_event(PINCH_A, PinchEvent::End { cancelled: 1 });
    assert_eq!(state.img_transform, before);
    assert_eq!(effects, vec![cursor(PTR_A, CursorShape::Default, 0), render(before, 3)]);
    assert_eq!(state.pointers[0].pinch_gesture, Some(PinchGesture { wl: PINCH_A, state: None }));
}

#[test]
fn pinch_that_ends_well_keeps_its_result() {
    let mut state = two_seats();
    state.pinch_event(PINCH_A, PinchEvent::Begin { fingers: 2 });
    state.pinch_event(PINCH_A, PinchEvent::Update { dx: 100, dy: 200, scale: 300 });
    let after = state.img_transform;
    assert_ne!(after, ImageTransform::identity());
    state.pinch_event(PINCH_A, PinchEvent::End { cancelled: 0 });
    assert_eq!(state.img_transform, after);
    assert_eq!(state.pointers[0].pinch_gesture.unwrap().state, None);
}

#[test]
fn removed_pointer_is_torn_down() {
    let mut state = two_seats();
    let effects = state.pointer_removed(SEAT_A);
    assert_eq!(
        effects,
        vec![
            Effect::DestroyThemedPointer { pointer: PTR_A },
            Effect::DestroyPinchGesture { id: PINCH_A },
            Effect::ReleasePointer { pointer: PTR_A },
        ]
    );
    assert_eq!(state.pointers.len(), 1);
    assert_eq!(state.pointers[0].wl, PTR_B);
    // version 2 has no release request and this pointer no gesture object
    assert_eq!(state.pointer_removed(SEAT_B), vec![Effect::DestroyThemedPointer { pointer: PTR_B }]);
    assert!(state.pointers.is_empty());
}
