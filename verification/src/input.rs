//! The input router: pointer and pinch gesture events become pans, zooms and
//! cursor changes.

use vstd::prelude::*;
use crate::lookup::{first_index, lemma_first_index, lemma_first_index_absent, lemma_first_index_found};
use crate::pointer::{
    pinch_ids, pointer_ids, pointer_seats, Axis, ButtonState,
    MoveTransaction, PinchEvent, PinchGesture, PinchGestureState, Pointer, PointerEvent,
    LEFT_PTR_BUTTON,
};
use crate::state::{State, StateView};
use crate::transform::{from_wl_fixed, Action, ImageTransform};
use crate::window::{CursorShape, Effect};

verus! {

/// The transform moved by an offset given as signed 24.8 numbers; as it was
/// where the result cannot be represented.
pub open spec fn dragged(t: ImageTransform, dx: int, dy: int) -> ImageTransform {
    match t.spec_pan(dx * 256, dy * 256) {
        Some(moved) => moved,
        None => t,
    }
}

/// Zoom magnitude of a pinch whose scale went from `prev` to `scale`, both
/// signed 24.8 numbers: minus one hundred times the difference, widened by
/// the factor 256 to the crate's fixed-point format.
pub open spec fn pinch_zoom(prev: i32, scale: i32) -> int {
    -((scale - prev) * 25600)
}

impl StateView {
    /// Whether the table holds a pointer with the protocol identity `wl`.
    pub open spec fn has_pointer(self, wl: u32) -> bool {
        first_index(pointer_ids(self.pointers), wl) is Some
    }

    /// Whether the table holds a pointer of the seat `seat`.
    pub open spec fn has_seat_pointer(self, seat: u32) -> bool {
        first_index(pointer_seats(self.pointers), seat) is Some
    }

    /// Whether a pointer of the table has the pinch gesture object `id`.
    pub open spec fn has_pinch(self, id: u32) -> bool {
        first_index(pinch_ids(self.pointers), Some(id)) is Some
    }

    /// Whether the seat may act on the image: no move transaction is under
    /// way, or the seat owns it.
    pub open spec fn may_act(self, seat: u32) -> bool {
        match self.move_transaction {
            Some(mt) => mt.wl_seat == seat,
            None => true,
        }
    }

    /// Whether the seat owns the move transaction under way.
    pub open spec fn owns_move(self, seat: u32) -> bool {
        match self.move_transaction {
            Some(mt) => mt.wl_seat == seat,
            None => false,
        }
    }

    /// The request to show `shape` on the pointer `ptr`.
    pub open spec fn cursor(self, ptr: Pointer, shape: CursorShape) -> Effect {
        Effect::SetCursor {
            pointer: ptr.wl,
            shape,
            scale: self.int_scale() as u32,
            serial: ptr.enter_serial,
        }
    }

    /// A seat announced a pointer: it joins the table.
    pub open spec fn pointer_added(self, seat: u32, wl: u32, version: u32, pinch: Option<u32>) -> StateView {
        StateView {
            pointers: self.pointers.push(
                Pointer {
                    seat,
                    wl,
                    version,
                    pinch_gesture: match pinch {
                        Some(id) => Some(PinchGesture { wl: id, state: None }),
                        None => None,
                    },
                    enter_serial: 0,
                    x: 0,
                    y: 0,
                },
            ),
            ..self
        }
    }

    /// A seat withdrew its pointer. The first pointer of the seat leaves the
    /// table and the last pointer takes its place. Its cursor and its pinch
    /// gesture object are destroyed, and from version 3 on the pointer object
    /// is released.
    pub open spec fn pointer_removed(self, seat: u32) -> (StateView, Seq<Effect>) {
        let i = first_index(pointer_seats(self.pointers), seat)->Some_0;
        let ptr = self.pointers[i];
        (
            StateView { pointers: self.pointers.update(i, self.pointers.last()).drop_last(), ..self },
            seq![Effect::DestroyThemedPointer { pointer: ptr.wl }] + (match ptr.pinch_gesture {
                Some(g) => seq![Effect::DestroyPinchGesture { id: g.wl }],
                None => Seq::empty(),
            }) + (if ptr.version >= 3 {
                seq![Effect::ReleasePointer { pointer: ptr.wl }]
            } else {
                Seq::empty()
            }),
        )
    }

    /// An event of the first pointer with the identity `wl`.
    ///
    /// Entering stores serial and position and shows the default cursor.
    /// Motion stores the position, and pans by the distance moved if the
    /// pointer's seat owns the move transaction. A press of the left button
    /// starts a move transaction if none is under way; a release of it by the
    /// owner ends the transaction, as does the owner's leaving. Vertical
    /// scrolling zooms around the pointer unless another seat owns a move
    /// transaction.
    pub open spec fn pointer_event(self, wl: u32, event: PointerEvent) -> (StateView, Seq<Effect>) {
        let i = first_index(pointer_ids(self.pointers), wl)->Some_0;
        let ptr = self.pointers[i];
        match event {
            PointerEvent::Enter { serial, surface_x, surface_y } => {
                let entered = Pointer { enter_serial: serial, x: surface_x, y: surface_y, ..ptr };
                (
                    StateView { pointers: self.pointers.update(i, entered), ..self },
                    seq![self.cursor(entered, CursorShape::Default)],
                )
            },
            PointerEvent::Leave => {
                if self.owns_move(ptr.seat) {
                    (StateView { move_transaction: None, ..self }, Seq::empty())
                } else {
                    (self, Seq::empty())
                }
            },
            PointerEvent::Motion { surface_x, surface_y } => {
                let moved = StateView {
                    pointers: self.pointers.update(i, Pointer { x: surface_x, y: surface_y, ..ptr }),
                    ..self
                };
                if self.owns_move(ptr.seat) {
                    StateView {
                        img_transform: dragged(self.img_transform, surface_x - ptr.x, surface_y - ptr.y),
                        ..moved
                    }.then_frame(Seq::empty())
                } else {
                    (moved, Seq::empty())
                }
            },
            PointerEvent::Button { button, state } => {
                if button == LEFT_PTR_BUTTON && state is Pressed && self.move_transaction is None {
                    (
                        StateView {
                            move_transaction: Some(MoveTransaction { wl_seat: ptr.seat }),
                            ..self
                        },
                        seq![self.cursor(ptr, CursorShape::Move)],
                    )
                } else if button == LEFT_PTR_BUTTON && state is Released && self.owns_move(ptr.seat) {
                    (
                        StateView { move_transaction: None, ..self },
                        seq![self.cursor(ptr, CursorShape::Default)],
                    )
                } else {
                    (self, Seq::empty())
                }
            },
            PointerEvent::Axis { axis, value } => {
                if axis is VerticalScroll && self.may_act(ptr.seat) {
                    self.handle_action(
                        Action::Zoom {
                            x: (ptr.x * 256) as i64,
                            y: (ptr.y * 256) as i64,
                            val: (value * 256) as i64,
                        },
                    )
                } else {
                    (self, Seq::empty())
                }
            },
            PointerEvent::Other => (self, Seq::empty()),
        }
    }

    /// An event of the pinch gesture object `id`, which belongs to the first
    /// pointer that has it.
    ///
    /// A gesture of two fingers begins with a snapshot of the transform. Each
    /// update pans by its offset and zooms around the pointer by the change
    /// of the gesture's scale. The end of a gesture under way requests a
    /// redraw; if the gesture was cancelled, the snapshot is first put back.
    pub open spec fn pinch_event(self, id: u32, event: PinchEvent) -> (StateView, Seq<Effect>) {
        let i = first_index(pinch_ids(self.pointers), Some(id))->Some_0;
        let ptr = self.pointers[i];
        let gesture = ptr.pinch_gesture->Some_0;
        match (event, gesture.state) {
            (PinchEvent::Begin { fingers }, _) if fingers == 2 => {
                let begun = PinchGestureState { prev_scale: 256, fallback_transform: self.img_transform };
                (
                    StateView {
                        pointers: self.pointers.update(
                            i,
                            Pointer {
                                pinch_gesture: Some(PinchGesture { state: Some(begun), ..gesture }),
                                ..ptr
                            },
                        ),
                        ..self
                    },
                    seq![self.cursor(ptr, CursorShape::Move)],
                )
            },
            (PinchEvent::Update { dx, dy, scale }, Some(s)) => {
                let updated = PinchGestureState { prev_scale: scale, ..s };
                StateView {
                    pointers: self.pointers.update(
                        i,
                        Pointer {
                            pinch_gesture: Some(PinchGesture { state: Some(updated), ..gesture }),
                            ..ptr
                        },
                    ),
                    img_transform: dragged(self.img_transform, dx as int, dy as int),
                    ..self
                }.handle_action(
                    Action::Zoom {
                        x: (ptr.x * 256) as i64,
                        y: (ptr.y * 256) as i64,
                        val: pinch_zoom(s.prev_scale, scale) as i64,
                    },
                )
            },
            (PinchEvent::End { cancelled }, Some(s)) => {
                StateView {
                    pointers: self.pointers.update(
                        i,
                        Pointer { pinch_gesture: Some(PinchGesture { state: None, ..gesture }), ..ptr },
                    ),
                    img_transform: if cancelled == 1 {
                        s.fallback_transform
                    } else {
                        self.img_transform
                    },
                    ..self
                }.then_frame(seq![self.cursor(ptr, CursorShape::Default)])
            },
            _ => (self, Seq::empty()),
        }
    }
}

impl State {
    /// Position of the first pointer with the protocol identity `wl`.
    pub fn pointer_index(&self, wl: u32) -> (r: Option<usize>)
        ensures
            match r {
                Some(i) => i < self.pointers.len() && first_index(pointer_ids(self.pointers@), wl)
                    == Some(i as int),
                None => first_index(pointer_ids(self.pointers@), wl) is None,
            },
            r is Some <==> self@.has_pointer(wl),
    {
        let mut i: usize = 0;
        while i < self.pointers.len()
            invariant
                i <= self.pointers.len(),
                forall|j: int| 0 <= j < i ==> pointer_ids(self.pointers@)[j] != wl,
            decreases self.pointers.len() - i,
        {
            if self.pointers[i].wl == wl {
                proof {
                    lemma_first_index_found(pointer_ids(self.pointers@), wl, i as int);
                }
                return Some(i);
            }
            i += 1;
        }
        proof {
            lemma_first_index_absent(pointer_ids(self.pointers@), wl);
        }
        None
    }

    /// Position of the first pointer of the seat `seat`.
    pub fn pointer_index_by_seat(&self, seat: u32) -> (r: Option<usize>)
        ensures
            match r {
                Some(i) => i < self.pointers.len() && first_index(
                    pointer_seats(self.pointers@),
                    seat,
                ) == Some(i as int),
                None => first_index(pointer_seats(self.pointers@), seat) is None,
            },
            r is Some <==> self@.has_seat_pointer(seat),
    {
        let mut i: usize = 0;
        while i < self.pointers.len()
            invariant
                i <= self.pointers.len(),
                forall|j: int| 0 <= j < i ==> pointer_seats(self.pointers@)[j] != seat,
            decreases self.pointers.len() - i,
        {
            if self.pointers[i].seat == seat {
                proof {
                    lemma_first_index_found(pointer_seats(self.pointers@), seat, i as int);
                }
                return Some(i);
            }
            i += 1;
        }
        proof {
            lemma_first_index_absent(pointer_seats(self.pointers@), seat);
        }
        None
    }

    /// Position of the first pointer that has the pinch gesture object `id`.
    pub fn pointer_index_by_pinch(&self, id: u32) -> (r: Option<usize>)
        ensures
            match r {
                Some(i) => i < self.pointers.len() && first_index(
                    pinch_ids(self.pointers@),
                    Some(id),
                ) == Some(i as int),
                None => first_index(pinch_ids(self.pointers@), Some(id)) is None,
            },
            r is Some <==> self@.has_pinch(id),
    {
        let mut i: usize = 0;
        while i < self.pointers.len()
            invariant
                i <= self.pointers.len(),
                forall|j: int| 0 <= j < i ==> pinch_ids(self.pointers@)[j] != Some(id),
            decreases self.pointers.len() - i,
        {
            let found = match self.pointers[i].pinch_gesture {
                Some(g) => g.wl == id,
                None => false,
            };
            if found {
                proof {
                    lemma_first_index_found(pinch_ids(self.pointers@), Some(id), i as int);
                }
                return Some(i);
            }
            i += 1;
        }
        proof {
            lemma_first_index_absent(pinch_ids(self.pointers@), Some(id));
        }
        None
    }

    fn may_act(&self, seat: u32) -> (r: bool)
        ensures
            r == self@.may_act(seat),
    {
        match self.move_transaction {
            Some(mt) => mt.wl_seat == seat,
            None => true,
        }
    }

    fn owns_move(&self, seat: u32) -> (r: bool)
        ensures
            r == self@.owns_move(seat),
    {
        match self.move_transaction {
            Some(mt) => mt.wl_seat == seat,
            None => false,
        }
    }

    fn cursor(&self, ptr: Pointer, shape: CursorShape) -> (e: Effect)
        ensures
            e == self@.cursor(ptr, shape),
    {
        Effect::SetCursor {
            pointer: ptr.wl,
            shape,
            scale: self.window.get_int_scale(self),
            serial: ptr.enter_serial,
        }
    }

    fn drag(&mut self, dx: i64, dy: i64)
        requires
            -0x1_0000_0000 <= dx <= 0x1_0000_0000,
            -0x1_0000_0000 <= dy <= 0x1_0000_0000,
        ensures
            *final(self) == (State {
                img_transform: dragged(old(self).img_transform, dx as int, dy as int),
                ..*old(self)
            }),
    {
        match self.img_transform.pan(dx * 256, dy * 256) {
            Some(t) => {
                self.img_transform = t;
            },
            None => {},
        }
    }

    /// A seat announced a pointer with the given protocol object, and with a
    /// pinch gesture object where the compositor offers gestures.
    pub fn pointer_added(&mut self, seat: u32, wl: u32, version: u32, pinch: Option<u32>)
        ensures
            final(self)@ == old(self)@.pointer_added(seat, wl, version, pinch),
            final(self)@.follows(old(self)@),
    {
        self.pointers.push(
            Pointer {
                seat,
                wl,
                version,
                pinch_gesture: match pinch {
                    Some(id) => Some(PinchGesture { wl: id, state: None }),
                    None => None,
                },
                enter_serial: 0,
                x: 0,
                y: 0,
            },
        );
    }

    /// The seat `seat`, which must have a pointer in the table, withdrew it.
    pub fn pointer_removed(&mut self, seat: u32) -> (effects: Vec<Effect>)
        requires
            old(self)@.has_seat_pointer(seat),
        ensures
            final(self)@ == old(self)@.pointer_removed(seat).0,
            effects@ == old(self)@.pointer_removed(seat).1,
            final(self)@.follows(old(self)@),
    {
        let mut effects: Vec<Effect> = Vec::new();
        match self.pointer_index_by_seat(seat) {
            Some(i) => {
                let ptr = self.pointers.swap_remove(i);
                effects.push(Effect::DestroyThemedPointer { pointer: ptr.wl });
                match ptr.pinch_gesture {
                    Some(g) => {
                        effects.push(Effect::DestroyPinchGesture { id: g.wl });
                    },
                    None => {},
                }
                if ptr.version >= 3 {
                    effects.push(Effect::ReleasePointer { pointer: ptr.wl });
                }
            },
            None => {},
        }
        effects
    }

    /// An event of the pointer `wl`, which must be in the table.
    pub fn pointer_event(&mut self, wl: u32, event: PointerEvent) -> (effects: Vec<Effect>)
        requires
            old(self)@.has_pointer(wl),
        ensures
            final(self)@ == old(self)@.pointer_event(wl, event).0,
            effects@ == old(self)@.pointer_event(wl, event).1,
            final(self)@.follows(old(self)@),
    {
        let mut effects: Vec<Effect> = Vec::new();
        let i = match self.pointer_index(wl) {
            Some(i) => i,
            None => {
                return effects;
            },
        };
        let ptr = self.pointers[i];
        match event {
            PointerEvent::Enter { serial, surface_x, surface_y } => {
                let entered = Pointer { enter_serial: serial, x: surface_x, y: surface_y, ..ptr };
                effects.push(self.cursor(entered, CursorShape::Default));
                self.pointers.set(i, entered);
            },
            PointerEvent::Leave => {
                if self.owns_move(ptr.seat) {
                    self.move_transaction = None;
                }
            },
            PointerEvent::Motion { surface_x, surface_y } => {
                let dx: i64 = surface_x as i64 - ptr.x as i64;
                let dy: i64 = surface_y as i64 - ptr.y as i64;
                self.pointers.set(i, Pointer { x: surface_x, y: surface_y, ..ptr });
                if self.owns_move(ptr.seat) {
                    self.drag(dx, dy);
                    self.frame_into(&mut effects);
                }
            },
            PointerEvent::Button { button, state } => {
                let pressed = match state {
                    ButtonState::Pressed => true,
                    ButtonState::Released => false,
                };
                if button == LEFT_PTR_BUTTON && pressed && self.move_transaction.is_none() {
                    effects.push(self.cursor(ptr, CursorShape::Move));
                    self.move_transaction = Some(MoveTransaction { wl_seat: ptr.seat });
                } else if button == LEFT_PTR_BUTTON && !pressed && self.owns_move(ptr.seat) {
                    effects.push(self.cursor(ptr, CursorShape::Default));
                    self.move_transaction = None;
                }
            },
            PointerEvent::Axis { axis, value } => {
                let vertical = match axis {
                    Axis::VerticalScroll => true,
                    Axis::HorizontalScroll => false,
                };
                if vertical && self.may_act(ptr.seat) {
                    return self.handle_action(
                        Action::Zoom {
                            x: from_wl_fixed(ptr.x),
                            y: from_wl_fixed(ptr.y),
                            val: from_wl_fixed(value),
                        },
                    );
                }
            },
            PointerEvent::Other => {},
        }
        effects
    }

    /// An event of the pinch gesture object `id`, which must belong to a
    /// pointer of the table.
    pub fn pinch_event(&mut self, id: u32, event: PinchEvent) -> (effects: Vec<Effect>)
        requires
            old(self)@.has_pinch(id),
        ensures
            final(self)@ == old(self)@.pinch_event(id, event).0,
            effects@ == old(self)@.pinch_event(id, event).1,
            final(self)@.follows(old(self)@),
    {
        let mut effects: Vec<Effect> = Vec::new();
        let i = match self.pointer_index_by_pinch(id) {
            Some(i) => i,
            None => {
                return effects;
            },
        };
        let ptr = self.pointers[i];
        proof {
            lemma_first_index(pinch_ids(self.pointers@), Some(id));
        }
        let gesture = match ptr.pinch_gesture {
            Some(g) => g,
            None => {
                return effects;
            },
        };
        match (event, gesture.state) {
            (PinchEvent::Begin { fingers }, _) if fingers == 2 => {
                let begun = PinchGestureState { prev_scale: 256, fallback_transform: self.img_transform };
                effects.push(self.cursor(ptr, CursorShape::Move));
                self.pointers.set(
                    i,
                    Pointer { pinch_gesture: Some(PinchGesture { state: Some(begun), ..gesture }), ..ptr },
                );
            },
            (PinchEvent::Update { dx, dy, scale }, Some(s)) => {
                let val: i64 = -((scale as i64 - s.prev_scale as i64) * 25600);
                let updated = PinchGestureState { prev_scale: scale, ..s };
                self.pointers.set(
                    i,
                    Pointer { pinch_gesture: Some(PinchGesture { state: Some(updated), ..gesture }), ..ptr },
                );
                self.drag(dx as i64, dy as i64);
                return self.handle_action(
                    Action::Zoom { x: from_wl_fixed(ptr.x), y: from_wl_fixed(ptr.y), val },
                );
            },
            (PinchEvent::End { cancelled }, Some(s)) => {
                effects.push(self.cursor(ptr, CursorShape::Default));
                if cancelled == 1 {
                    self.img_transform = s.fallback_transform;
                }
                self.pointers.set(
                    i,
                    Pointer { pinch_gesture: Some(PinchGesture { state: None, ..gesture }), ..ptr },
                );
                self.frame_into(&mut effects);
            },
            _ => {},
        }
        effects
    }
}

/// The state after the events `events` of the pinch gesture object `id`, one
/// after the other.
pub open spec fn after_pinch_events(s: StateView, id: u32, events: Seq<PinchEvent>) -> StateView
    decreases events.len(),
{
    if events.len() == 0 {
        s
    } else {
        after_pinch_events(s, id, events.drop_last()).pinch_event(id, events.last()).0
    }
}

/// Whether the pinch gesture object `id` has a gesture under way in `s` whose
/// snapshot is `snapshot`, on the pointer that had the object in `origin`.
pub open spec fn pinching_since(s: StateView, origin: StateView, id: u32, snapshot: ImageTransform) -> bool {
    &&& pinch_ids(s.pointers) == pinch_ids(origin.pointers)
    &&& first_index(pinch_ids(s.pointers), Some(id)) matches Some(i)
    &&& s.pointers[i].pinch_gesture matches Some(g)
    &&& g.state matches Some(state)
    &&& state.fallback_transform == snapshot
}

/// A cancelled pinch is rolled back as a whole: whatever updates a gesture
/// of two fingers went through, when it ends cancelled the transform is
/// again the one from before the gesture began.
pub proof fn lemma_cancelled_pinch_rolls_back(s: StateView, id: u32, updates: Seq<PinchEvent>)
    requires
        s.has_pinch(id),
        forall|k: int| 0 <= k < updates.len() ==> updates[k] is Update,
    ensures
        ({
            let begun = s.pinch_event(id, PinchEvent::Begin { fingers: 2 }).0;
            let updated = after_pinch_events(begun, id, updates);
            updated.pinch_event(id, PinchEvent::End { cancelled: 1 }).0.img_transform == s.img_transform
        }),
{
    let begun = s.pinch_event(id, PinchEvent::Begin { fingers: 2 }).0;
    lemma_first_index(pinch_ids(s.pointers), Some(id));
    assert(pinch_ids(begun.pointers) =~= pinch_ids(s.pointers));
    lemma_updates_keep_snapshot(begun, s, id, s.img_transform, updates);
}

proof fn lemma_updates_keep_snapshot(
    begun: StateView,
    origin: StateView,
    id: u32,
    snapshot: ImageTransform,
    updates: Seq<PinchEvent>,
)
    requires
        pinching_since(begun, origin, id, snapshot),
        forall|k: int| 0 <= k < updates.len() ==> updates[k] is Update,
    ensures
        pinching_since(after_pinch_events(begun, id, updates), origin, id, snapshot),
    decreases updates.len(),
{
    if updates.len() > 0 {
        let front = updates.drop_last();
        assert forall|k: int| 0 <= k < front.len() implies front[k] is Update by {
            assert(front[k] == updates[k]);
        }
        lemma_updates_keep_snapshot(begun, origin, id, snapshot, front);
        let before = after_pinch_events(begun, id, front);
        let after = before.pinch_event(id, updates.last()).0;
        lemma_first_index(pinch_ids(before.pointers), Some(id));
        assert(updates[updates.len() - 1] is Update);
        assert(pinch_ids(after.pointers) =~= pinch_ids(before.pointers));
    }
}

/// A move transaction has one owner. While a seat owns it, no event of the
/// pointer of another seat starts, ends or takes over the transaction: a
/// press there starts none, and a release or a leave there ends none.
pub proof fn lemma_move_transaction_exclusive(s: StateView, wl: u32, event: PointerEvent)
    requires
        s.has_pointer(wl),
        s.move_transaction is Some,
        !s.owns_move(s.pointers[first_index(pointer_ids(s.pointers), wl)->Some_0].seat),
    ensures
        s.pointer_event(wl, event).0.move_transaction == s.move_transaction,
        s.pointer_event(wl, event).0.img_transform == s.img_transform,
{
}

/// The owner's release of the left button, and the owner's leaving, end the
/// move transaction.
pub proof fn lemma_owner_ends_move_transaction(s: StateView, wl: u32)
    requires
        s.has_pointer(wl),
        s.owns_move(s.pointers[first_index(pointer_ids(s.pointers), wl)->Some_0].seat),
    ensures
        s.pointer_event(
            wl,
            PointerEvent::Button { button: LEFT_PTR_BUTTON, state: ButtonState::Released },
        ).0.move_transaction is None,
        s.pointer_event(wl, PointerEvent::Leave).0.move_transaction is None,
{
}

} // verus!
