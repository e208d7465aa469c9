//! What the input router remembers of each pointer, and the events it takes.

use vstd::prelude::*;
use crate::transform::ImageTransform;

verus! {

/// Button code of the left pointer button.
pub const LEFT_PTR_BUTTON: u32 = 272;

/// The one click-and-drag pan that can be under way, and the seat that owns it.
#[derive(Clone, Copy, Debug, PartialEq, Eq)]
pub struct MoveTransaction {
    pub wl_seat: u32,
}

/// A two-finger pinch under way.
#[derive(Clone, Copy, Debug, PartialEq, Eq)]
pub struct PinchGestureState {
    /// Scale that the gesture last reported, a signed 24.8 number.
    pub prev_scale: i32,
    /// The transform as it was when the gesture began.
    pub fallback_transform: ImageTransform,
}

/// The pinch gesture object of a pointer.
#[derive(Clone, Copy, Debug, PartialEq, Eq)]
pub struct PinchGesture {
    /// Identity of the protocol object.
    pub wl: u32,
    pub state: Option<PinchGestureState>,
}

/// The pointer of one seat. Positions are signed 24.8 numbers in
/// surface-local coordinates.
#[derive(Clone, Copy, Debug, PartialEq, Eq)]
pub struct Pointer {
    pub seat: u32,
    /// Identity of the protocol object.
    pub wl: u32,
    /// Version of the protocol object.
    pub version: u32,
    pub pinch_gesture: Option<PinchGesture>,
    pub enter_serial: u32,
    pub x: i32,
    pub y: i32,
}

#[derive(Clone, Copy, Debug, PartialEq, Eq)]
pub enum ButtonState {
    Released,
    Pressed,
}

#[derive(Clone, Copy, Debug, PartialEq, Eq)]
pub enum Axis {
    VerticalScroll,
    HorizontalScroll,
}

/// An event of a pointer object. Coordinates and scroll values are signed
/// 24.8 numbers.
#[derive(Clone, Copy, Debug, PartialEq, Eq)]
pub enum PointerEvent {
    Enter { serial: u32, surface_x: i32, surface_y: i32 },
    Leave,
    Motion { surface_x: i32, surface_y: i32 },
    Button { button: u32, state: ButtonState },
    Axis { axis: Axis, value: i32 },
    /// Any other event; it changes nothing.
    Other,
}

/// An event of a pinch gesture object. Offsets and the scale are signed 24.8
/// numbers.
#[derive(Clone, Copy, Debug, PartialEq, Eq)]
pub enum PinchEvent {
    Begin { fingers: u32 },
    Update { dx: i32, dy: i32, scale: i32 },
    End { cancelled: i32 },
    /// Any other event; it changes nothing.
    Other,
}

/// The protocol identities of the pointers of a table, in order.
pub open spec fn pointer_ids(pointers: Seq<Pointer>) -> Seq<u32> {
    Seq::new(pointers.len(), |i: int| pointers[i].wl)
}

/// The seats of the pointers of a table, in order.
pub open spec fn pointer_seats(pointers: Seq<Pointer>) -> Seq<u32> {
    Seq::new(pointers.len(), |i: int| pointers[i].seat)
}

/// The identity of the pinch gesture object of a pointer, if it has one.
pub open spec fn pinch_id(p: Pointer) -> Option<u32> {
    match p.pinch_gesture {
        Some(g) => Some(g.wl),
        None => None,
    }
}

/// The identities of the pinch gesture objects of the pointers of a table,
/// in order.
pub open spec fn pinch_ids(pointers: Seq<Pointer>) -> Seq<Option<u32>> {
    Seq::new(pointers.len(), |i: int| pinch_id(pointers[i]))
}

} // verus!
