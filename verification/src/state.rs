//! The engine's state and its reactions to the events of the window, the
//! outputs and the frame callback.
//!
//! Every reaction is a function from the state and an event to the next
//! state and the requests to perform. The caller owns the connection: it
//! turns protocol events into calls and performs the requests it gets back.

use vstd::prelude::*;
use crate::lookup::{first_index, lemma_first_index_absent, lemma_first_index_found};
use crate::output::{member_scale, spec_int_scale, spec_scale120, Output};
use crate::pointer::{MoveTransaction, Pointer};
use crate::repeat::RepeatState;
use crate::transform::{Action, ImageTransform};
use crate::window::{Effect, Frame, Window, WindowView};

verus! {

pub struct State {
    pub outputs: Vec<Output>,
    pub pointers: Vec<Pointer>,
    pub window: Window,
    pub img_transform: ImageTransform,
    pub move_transaction: Option<MoveTransaction>,
    pub kbd_repeat: RepeatState,
}

/// The state as a mathematical value.
pub struct StateView {
    pub outputs: Seq<Output>,
    pub pointers: Seq<Pointer>,
    pub window: WindowView,
    pub img_transform: ImageTransform,
    pub move_transaction: Option<MoveTransaction>,
    pub kbd_repeat: RepeatState,
}

impl View for State {
    type V = StateView;

    open spec fn view(&self) -> StateView {
        StateView {
            outputs: self.outputs@,
            pointers: self.pointers@,
            window: self.window@,
            img_transform: self.img_transform,
            move_transaction: self.move_transaction,
            kbd_repeat: self.kbd_repeat,
        }
    }
}

/// An event of the window's surface.
#[derive(Clone, Copy, Debug, PartialEq, Eq)]
pub enum SurfaceEvent {
    /// The surface now overlaps the output.
    Enter { output: u32 },
    /// The surface no longer overlaps the output.
    Leave { output: u32 },
    /// Any other event.
    Other,
}

/// The registry names of the outputs of a table, in order.
pub open spec fn output_names(outputs: Seq<Output>) -> Seq<u32> {
    Seq::new(outputs.len(), |i: int| outputs[i].reg_name)
}

/// The protocol identities of the outputs of a table, in order.
pub open spec fn output_ids(outputs: Seq<Output>) -> Seq<u32> {
    Seq::new(outputs.len(), |i: int| outputs[i].id)
}

/// The token after `token`; the count starts over after the last number.
pub open spec fn next_token(token: u32) -> u32 {
    if token == u32::MAX {
        0
    } else {
        (token + 1) as u32
    }
}

/// The requests that draw `frame`, if there is one.
pub open spec fn render_effects(frame: Option<Frame>) -> Seq<Effect> {
    match frame {
        Some(f) => seq![Effect::Render(f)],
        None => Seq::empty(),
    }
}

/// Whether the pinch gesture of a pointer, if one is under way, holds the
/// snapshot of a well-formed transform.
pub open spec fn snapshot_wf(p: Pointer) -> bool {
    p.pinch_gesture matches Some(g) ==> (g.state matches Some(s) ==> s.fallback_transform.wf())
}

impl StateView {
    /// A state is well formed when the scale of its transform is positive,
    /// and so is the scale of every snapshot that a pinch gesture holds; when
    /// a frame token is outstanding only on a mapped window; and when a
    /// redraw is owed only while a token is outstanding, whose release will
    /// then draw it.
    pub open spec fn wf(self) -> bool {
        &&& self.img_transform.wf()
        &&& forall|i: int| 0 <= i < self.pointers.len() ==> snapshot_wf(#[trigger] self.pointers[i])
        &&& self.window.throttle is Some ==> self.window.mapped
        &&& self.window.throttled ==> self.window.throttle is Some
    }

    /// What holds of a state that came from the state `before` by an event:
    /// a mapped window is still mapped and a closed one still closed, a
    /// fractional scale that was known is still known, and a well-formed
    /// state is still well formed.
    pub open spec fn follows(self, before: StateView) -> bool {
        &&& before.window.mapped ==> self.window.mapped
        &&& before.window.closed ==> self.window.closed
        &&& before.window.scale120 is Some ==> self.window.scale120 is Some
        &&& before.wf() ==> self.wf()
    }

    /// The state before any event.
    pub open spec fn initial() -> StateView {
        StateView {
            outputs: Seq::empty(),
            pointers: Seq::empty(),
            window: WindowView::initial(),
            img_transform: ImageTransform { x: 0, y: 0, scale: crate::transform::ONE },
            move_transaction: None,
            kbd_repeat: RepeatState::Idle,
        }
    }

    /// The whole scale of the user interface.
    pub open spec fn int_scale(self) -> int {
        spec_int_scale(self.window.scale120, self.outputs, self.window.outputs)
    }

    /// The scale in 120ths at which the window is drawn.
    pub open spec fn scale120(self) -> int {
        spec_scale120(self.window.scale120, self.outputs, self.window.outputs)
    }

    /// A request for a redraw. An unmapped window draws nothing. While a
    /// frame token is outstanding the request is noted and nothing is drawn.
    /// Otherwise a frame is drawn and its token becomes the outstanding one.
    pub open spec fn frame(self) -> (StateView, Option<Frame>) {
        if !self.window.mapped {
            (self, None)
        } else if self.window.throttle is Some {
            (StateView { window: WindowView { throttled: true, ..self.window }, ..self }, None)
        } else {
            let token = self.window.next_token;
            (
                StateView {
                    window: WindowView {
                        throttle: Some(token),
                        next_token: next_token(token),
                        ..self.window
                    },
                    ..self
                },
                Some(
                    Frame {
                        width: self.window.width,
                        height: self.window.height,
                        scale120: self.scale120() as u64,
                        transform: self.img_transform,
                        token,
                    },
                ),
            )
        }
    }

    /// A request for a redraw after the requests `before` were made.
    pub open spec fn then_frame(self, before: Seq<Effect>) -> (StateView, Seq<Effect>) {
        (self.frame().0, before + render_effects(self.frame().1))
    }

    /// The compositor acknowledged the outstanding frame. The token is
    /// cleared, and if a redraw was asked for in the meantime it happens now,
    /// once.
    pub open spec fn frame_done(self) -> (StateView, Seq<Effect>) {
        let released = StateView {
            window: WindowView { throttle: None, throttled: false, ..self.window },
            ..self
        };
        if self.window.throttled {
            released.then_frame(Seq::empty())
        } else {
            (released, Seq::empty())
        }
    }

    /// The user asked for `action`: the transform follows, a fullscreen
    /// toggle is requested from the compositor, and a redraw is requested.
    pub open spec fn handle_action(self, action: Action) -> (StateView, Seq<Effect>) {
        let before = if action is ToggleFullscreen {
            seq![self.window.toggle_fullscreen()]
        } else {
            Seq::empty()
        };
        StateView {
            img_transform: self.img_transform.spec_apply(action, self.window.width, self.window.height),
            ..self
        }.then_frame(before)
    }

    /// A newly bound output joins the table with scale 1.
    pub open spec fn bind_output(self, reg_name: u32, id: u32, version: u32) -> StateView {
        StateView { outputs: self.outputs.push(Output { reg_name, id, version, scale: 1 }), ..self }
    }

    /// The registry withdrew the global `name`. If the first output of that
    /// name exists, it leaves the table, the last output takes its place, the
    /// surface no longer counts as overlapping it, and from version 3 on its
    /// protocol object is released.
    pub open spec fn global_removed(self, name: u32) -> (StateView, Seq<Effect>) {
        match first_index(output_names(self.outputs), name) {
            Some(i) => {
                let output = self.outputs[i];
                (
                    StateView {
                        outputs: self.outputs.update(i, self.outputs.last()).drop_last(),
                        window: WindowView {
                            outputs: self.window.outputs.remove(output.id),
                            ..self.window
                        },
                        ..self
                    },
                    if output.version >= 3 {
                        seq![Effect::ReleaseOutput { id: output.id }]
                    } else {
                        Seq::empty()
                    },
                )
            },
            None => (self, Seq::empty()),
        }
    }

    /// Whether the table holds an output with the protocol identity `id`.
    pub open spec fn has_output(self, id: u32) -> bool {
        first_index(output_ids(self.outputs), id) is Some
    }

    /// The first output with the identity `id` reported the scale `scale`.
    /// A redraw is requested if the surface overlaps that output.
    pub open spec fn output_scaled(self, id: u32, scale: u32) -> (StateView, Seq<Effect>) {
        let i = first_index(output_ids(self.outputs), id)->Some_0;
        let scaled = StateView {
            outputs: self.outputs.update(i, Output { scale, ..self.outputs[i] }),
            ..self
        };
        if self.window.outputs.contains(id) {
            scaled.then_frame(Seq::empty())
        } else {
            (scaled, Seq::empty())
        }
    }

    /// An event of the surface: the set of overlapped outputs follows, and a
    /// redraw is requested whatever the event.
    pub open spec fn surface_event(self, event: SurfaceEvent) -> (StateView, Seq<Effect>) {
        let outputs = match event {
            SurfaceEvent::Enter { output } => self.window.outputs.insert(output),
            SurfaceEvent::Leave { output } => self.window.outputs.remove(output),
            SurfaceEvent::Other => self.window.outputs,
        };
        StateView { window: WindowView { outputs, ..self.window }, ..self }.then_frame(Seq::empty())
    }

    /// The compositor configured the surface. The event is acknowledged. The
    /// first one maps the window, which attaches the background. A redraw is
    /// requested.
    pub open spec fn surface_configured(self, serial: u32) -> (StateView, Seq<Effect>) {
        let before = if self.window.mapped {
            seq![Effect::AckConfigure { serial }]
        } else {
            seq![Effect::AckConfigure { serial }, Effect::AttachBackground]
        };
        StateView { window: WindowView { mapped: true, ..self.window }, ..self }.then_frame(before)
    }

    /// The compositor prefers the fractional scale `scale120`. Where that is
    /// news, the scale is taken over and a redraw is requested.
    pub open spec fn preferred_scale(self, scale120: u32) -> (StateView, Seq<Effect>) {
        if self.window.scale120 == Some(scale120) {
            (self, Seq::empty())
        } else {
            StateView {
                window: WindowView { scale120: Some(scale120), ..self.window },
                ..self
            }.then_frame(Seq::empty())
        }
    }

    /// The compositor asked the window to close.
    pub open spec fn close_requested(self) -> (StateView, Seq<Effect>) {
        (
            StateView { window: WindowView { closed: true, ..self.window }, ..self },
            seq![Effect::BreakDispatch],
        )
    }
}

impl Window {
    /// The whole scale of the user interface: the fractional scale rounded
    /// up, or else the greatest scale of the overlapped outputs of `state`,
    /// or else 1.
    pub fn get_int_scale(&self, state: &State) -> (r: u32)
        ensures
            r == spec_int_scale(self.scale120, state.outputs@, self.outputs@),
    {
        match self.scale120 {
            Some(scale120) => ((scale120 as u64 + 119) / 120) as u32,
            None => {
                let mut best: Option<u32> = None;
                let mut i: usize = 0;
                while i < state.outputs.len()
                    invariant
                        i <= state.outputs.len(),
                        best == member_scale(state.outputs@.take(i as int), self.outputs@),
                    decreases state.outputs.len() - i,
                {
                    let o = state.outputs[i];
                    assert(state.outputs@.take(i + 1).drop_last() =~= state.outputs@.take(i as int));
                    if self.outputs.contains(&o.id) {
                        best = match best {
                            Some(m) => if m >= o.scale {
                                Some(m)
                            } else {
                                Some(o.scale)
                            },
                            None => Some(o.scale),
                        };
                    }
                    i += 1;
                }
                assert(state.outputs@.take(i as int) =~= state.outputs@);
                match best {
                    Some(m) => m,
                    None => 1,
                }
            },
        }
    }

    /// Requests a redraw of the window of `state`.
    pub fn frame(state: &mut State) -> (f: Option<Frame>)
        ensures
            final(state)@ == old(state)@.frame().0,
            f == old(state)@.frame().1,
            f is Some <==> old(state).window.mapped && old(state).window.throttle is None,
            f matches Some(frame) ==> final(state).window.throttle == Some(frame.token),
            final(state)@.follows(old(state)@),
    {
        if !state.window.mapped {
            return None;
        }
        if state.window.throttle.is_some() {
            state.window.throttled = true;
            return None;
        }
        let scale120: u64 = match state.window.scale120 {
            Some(s) => s as u64,
            None => state.window.get_int_scale(&*state) as u64 * 120,
        };
        let token: u32 = state.window.next_token;
        state.window.next_token = if token == u32::MAX {
            0
        } else {
            token + 1
        };
        state.window.throttle = Some(token);
        Some(
            Frame {
                width: state.window.width,
                height: state.window.height,
                scale120,
                transform: state.img_transform,
                token,
            },
        )
    }
}

impl State {
    /// The state before any event: an unmapped window and the image untouched.
    pub fn new() -> (s: State)
        ensures
            s@ == StateView::initial(),
            s@.wf(),
    {
        State {
            outputs: Vec::new(),
            pointers: Vec::new(),
            window: Window::new(),
            img_transform: ImageTransform::identity(),
            move_transaction: None,
            kbd_repeat: RepeatState::Idle,
        }
    }

    /// Requests a redraw and appends the request to draw, if any, to `effects`.
    pub(crate) fn frame_into(&mut self, effects: &mut Vec<Effect>)
        ensures
            final(self)@ == old(self)@.then_frame(old(effects)@).0,
            final(effects)@ == old(self)@.then_frame(old(effects)@).1,
            final(self)@.follows(old(self)@),
    {
        match Window::frame(self) {
            Some(f) => {
                effects.push(Effect::Render(f));
            },
            None => {
                assert(old(effects)@ + Seq::<Effect>::empty() =~= old(effects)@);
            },
        }
    }

    /// The compositor acknowledged the frame with the token `token`, which
    /// must be the outstanding one.
    pub fn frame_done(&mut self, token: u32) -> (effects: Vec<Effect>)
        requires
            old(self).window.throttle == Some(token),
        ensures
            final(self)@ == old(self)@.frame_done().0,
            effects@ == old(self)@.frame_done().1,
            final(self)@.follows(old(self)@),
    {
        let mut effects: Vec<Effect> = Vec::new();
        self.window.throttle = None;
        if self.window.throttled {
            self.window.throttled = false;
            self.frame_into(&mut effects);
        }
        effects
    }

    /// Carries out what the user asked for and requests a redraw.
    pub fn handle_action(&mut self, action: Action) -> (effects: Vec<Effect>)
        ensures
            final(self)@ == old(self)@.handle_action(action).0,
            effects@ == old(self)@.handle_action(action).1,
            final(self)@.follows(old(self)@),
    {
        let mut effects: Vec<Effect> = Vec::new();
        self.img_transform = self.img_transform.apply(action, self.window.width, self.window.height);
        match action {
            Action::ToggleFullscreen => {
                effects.push(self.window.toggle_fullscreen());
            },
            _ => {},
        }
        self.frame_into(&mut effects);
        effects
    }

    /// Enters an output that was just bound into the table.
    pub fn bind_output(&mut self, reg_name: u32, id: u32, version: u32)
        ensures
            final(self)@ == old(self)@.bind_output(reg_name, id, version),
            final(self)@.follows(old(self)@),
    {
        self.outputs.push(Output { reg_name, id, version, scale: 1 });
    }

    /// Position of the first output with the registry name `name`.
    pub fn output_index_by_name(&self, name: u32) -> (r: Option<usize>)
        ensures
            match r {
                Some(i) => i < self.outputs.len() && first_index(output_names(self.outputs@), name)
                    == Some(i as int),
                None => first_index(output_names(self.outputs@), name) is None,
            },
    {
        let mut i: usize = 0;
        while i < self.outputs.len()
            invariant
                i <= self.outputs.len(),
                forall|j: int| 0 <= j < i ==> output_names(self.outputs@)[j] != name,
            decreases self.outputs.len() - i,
        {
            if self.outputs[i].reg_name == name {
                proof {
                    lemma_first_index_found(output_names(self.outputs@), name, i as int);
                }
                return Some(i);
            }
            i += 1;
        }
        proof {
            lemma_first_index_absent(output_names(self.outputs@), name);
        }
        None
    }

    /// Position of the first output with the protocol identity `id`.
    pub fn output_index(&self, id: u32) -> (r: Option<usize>)
        ensures
            match r {
                Some(i) => i < self.outputs.len() && first_index(output_ids(self.outputs@), id) == Some(
                    i as int,
                ),
                None => first_index(output_ids(self.outputs@), id) is None,
            },
            r is Some <==> self@.has_output(id),
    {
        let mut i: usize = 0;
        while i < self.outputs.len()
            invariant
                i <= self.outputs.len(),
                forall|j: int| 0 <= j < i ==> output_ids(self.outputs@)[j] != id,
            decreases self.outputs.len() - i,
        {
            if self.outputs[i].id == id {
                proof {
                    lemma_first_index_found(output_ids(self.outputs@), id, i as int);
                }
                return Some(i);
            }
            i += 1;
        }
        proof {
            lemma_first_index_absent(output_ids(self.outputs@), id);
        }
        None
    }

    /// The registry withdrew the global `name`.
    pub fn global_removed(&mut self, name: u32) -> (effects: Vec<Effect>)
        ensures
            final(self)@ == old(self)@.global_removed(name).0,
            effects@ == old(self)@.global_removed(name).1,
            final(self)@.follows(old(self)@),
    {
        let mut effects: Vec<Effect> = Vec::new();
        match self.output_index_by_name(name) {
            Some(i) => {
                let output = self.outputs.swap_remove(i);
                self.window.outputs.remove(&output.id);
                if output.version >= 3 {
                    effects.push(Effect::ReleaseOutput { id: output.id });
                }
            },
            None => {},
        }
        effects
    }

    /// The output with the identity `id`, which must be in the table,
    /// reported the scale `scale`.
    pub fn output_scaled(&mut self, id: u32, scale: u32) -> (effects: Vec<Effect>)
        requires
            old(self)@.has_output(id),
        ensures
            final(self)@ == old(self)@.output_scaled(id, scale).0,
            effects@ == old(self)@.output_scaled(id, scale).1,
            final(self)@.follows(old(self)@),
    {
        let mut effects: Vec<Effect> = Vec::new();
        match self.output_index(id) {
            Some(i) => {
                let mut output = self.outputs[i];
                output.scale = scale;
                self.outputs.set(i, output);
                if self.window.outputs.contains(&id) {
                    self.frame_into(&mut effects);
                }
            },
            None => {},
        }
        effects
    }

    /// An event of the window's surface.
    pub fn surface_event(&mut self, event: SurfaceEvent) -> (effects: Vec<Effect>)
        ensures
            final(self)@ == old(self)@.surface_event(event).0,
            effects@ == old(self)@.surface_event(event).1,
            final(self)@.follows(old(self)@),
    {
        let mut effects: Vec<Effect> = Vec::new();
        match event {
            SurfaceEvent::Enter { output } => {
                self.window.outputs.insert(output);
            },
            SurfaceEvent::Leave { output } => {
                self.window.outputs.remove(&output);
            },
            SurfaceEvent::Other => {},
        }
        self.frame_into(&mut effects);
        effects
    }

    /// The compositor configured the surface under the serial `serial`.
    pub fn surface_configured(&mut self, serial: u32) -> (effects: Vec<Effect>)
        ensures
            final(self)@ == old(self)@.surface_configured(serial).0,
            effects@ == old(self)@.surface_configured(serial).1,
            final(self)@.follows(old(self)@),
    {
        let mut effects: Vec<Effect> = Vec::new();
        effects.push(Effect::AckConfigure { serial });
        if !self.window.mapped {
            self.window.mapped = true;
            effects.push(Effect::AttachBackground);
        }
        self.frame_into(&mut effects);
        effects
    }

    /// The compositor prefers the fractional scale `scale120`, in 120ths.
    pub fn preferred_scale(&mut self, scale120: u32) -> (effects: Vec<Effect>)
        ensures
            final(self)@ == old(self)@.preferred_scale(scale120).0,
            effects@ == old(self)@.preferred_scale(scale120).1,
            final(self)@.follows(old(self)@),
    {
        let mut effects: Vec<Effect> = Vec::new();
        let known = match self.window.scale120 {
            Some(s) => s == scale120,
            None => false,
        };
        if !known {
            self.window.scale120 = Some(scale120);
            self.frame_into(&mut effects);
        }
        effects
    }

    /// The compositor asked the window to close.
    pub fn close_requested(&mut self) -> (effects: Vec<Effect>)
        ensures
            final(self)@ == old(self)@.close_requested().0,
            effects@ == old(self)@.close_requested().1,
            final(self)@.follows(old(self)@),
    {
        let mut effects: Vec<Effect> = Vec::new();
        self.window.closed = true;
        effects.push(Effect::BreakDispatch);
        effects
    }
}

/// The state after `n` requests for a redraw in a row.
pub open spec fn after_frames(s: StateView, n: nat) -> StateView
    decreases n,
{
    if n == 0 {
        s
    } else {
        after_frames(s, (n - 1) as nat).frame().0
    }
}

/// Redraw requests coalesce. While a frame token is outstanding on a mapped
/// window, none of `n` requests in a row draws anything, whatever `n`. When
/// the token is then released and `n` is at least 1, exactly one frame is
/// drawn, of the window as it then is, and its token is the outstanding one
/// with no further redraw owed.
pub proof fn lemma_frames_coalesce(s: StateView, n: nat)
    requires
        s.window.mapped,
        s.window.throttle is Some,
    ensures
        forall|k: nat| k < n ==> (#[trigger] after_frames(s, k)).frame().1 is None,
        after_frames(s, n) == (if n == 0 {
            s
        } else {
            StateView { window: WindowView { throttled: true, ..s.window }, ..s }
        }),
        n >= 1 ==> ({
            let (released, effects) = after_frames(s, n).frame_done();
            &&& effects.len() == 1
            &&& effects[0] matches Effect::Render(f)
            &&& f.token == s.window.next_token
            &&& f.width == s.window.width
            &&& f.height == s.window.height
            &&& f.transform == s.img_transform
            &&& f.scale120 == s.scale120()
            &&& released.window.throttle == Some(f.token)
            &&& !released.window.throttled
            &&& released.frame_done().1.len() == 0
        }),
    decreases n,
{
    if n > 0 {
        lemma_frames_coalesce(s, (n - 1) as nat);
        assert forall|k: nat| k < n implies (#[trigger] after_frames(s, k)).frame().1 is None by {
            if k == n - 1 {
                assert(after_frames(s, k).window.mapped);
            }
        }
        lemma_scale120_bound(s);
    }
}

/// The scale in 120ths fits the 64 bits of a frame's scale.
pub proof fn lemma_scale120_bound(s: StateView)
    ensures
        0 <= s.scale120() <= u64::MAX,
{
}

/// After the registry withdrew a global, and while no fractional scale is
/// known, the whole scale is the greatest scale among the outputs that are
/// left in the table and that the surface still overlaps, and 1 if there is
/// no such output. That is so in particular when the withdrawn output was the
/// only one that the surface overlapped.
pub proof fn lemma_int_scale_after_removal(s: StateView, name: u32)
    requires
        s.window.scale120 is None,
    ensures
        ({
            let after = s.global_removed(name).0;
            let members = after.window.outputs;
            &&& forall|j: int|
                0 <= j < after.outputs.len() && members.contains(#[trigger] after.outputs[j].id)
                    ==> after.outputs[j].scale <= after.int_scale()
            &&& (exists|j: int| 0 <= j < after.outputs.len() && members.contains(#[trigger] after.outputs[j].id))
                ==> (exists|j: int|
                    0 <= j < after.outputs.len() && members.contains(#[trigger] after.outputs[j].id)
                        && after.outputs[j].scale == after.int_scale())
            &&& (forall|j: int| 0 <= j < after.outputs.len() ==> !members.contains(#[trigger] after.outputs[j].id))
                ==> after.int_scale() == 1
        }),
        first_index(output_names(s.outputs), name) matches Some(i) && (forall|j: int|
            0 <= j < s.outputs.len() && j != i ==> !s.window.outputs.contains(#[trigger] s.outputs[j].id))
            ==> s.global_removed(name).0.int_scale() == 1,
{
    let after = s.global_removed(name).0;
    let members = after.window.outputs;
    crate::output::lemma_member_scale_is_max(after.outputs, members);
    match first_index(output_names(s.outputs), name) {
        Some(i) => {
            crate::lookup::lemma_first_index(output_names(s.outputs), name);
            if forall|j: int|
                0 <= j < s.outputs.len() && j != i ==> !s.window.outputs.contains(#[trigger] s.outputs[j].id) {
                assert forall|j: int| 0 <= j < after.outputs.len() implies !members.contains(
                    #[trigger] after.outputs[j].id,
                ) by {
                    if j == i {
                        assert(after.outputs[j] == s.outputs[s.outputs.len() - 1]);
                    } else {
                        assert(after.outputs[j] == s.outputs[j]);
                    }
                }
            }
        },
        None => {},
    }
}

} // verus!
