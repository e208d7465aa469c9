//! The window: its size and scale, whether it is mapped, and the frame token
//! that throttles redraws.

use std::collections::HashSet;
use vstd::prelude::*;
use crate::transform::ImageTransform;

verus! {

/// One redraw: what to draw, and the token under which the compositor will
/// say that it is ready for the next one.
#[derive(Clone, Copy, Debug, PartialEq, Eq)]
pub struct Frame {
    /// Logical size of the window.
    pub width: u32,
    pub height: u32,
    /// Scale in 120ths at which to draw.
    pub scale120: u64,
    pub transform: ImageTransform,
    pub token: u32,
}

#[derive(Clone, Copy, Debug, PartialEq, Eq)]
pub enum CursorShape {
    Default,
    Move,
}

/// A request to perform on behalf of the engine, in the order given.
#[derive(Clone, Copy, Debug, PartialEq, Eq)]
pub enum Effect {
    /// Draw the frame, ask the compositor for a frame callback under the
    /// frame's token, and commit the surface.
    Render(Frame),
    /// Show `shape` on the pointer, drawn for the whole scale `scale`.
    SetCursor { pointer: u32, shape: CursorShape, scale: u32, serial: u32 },
    SetFullscreen,
    UnsetFullscreen,
    AckConfigure { serial: u32 },
    /// Attach the background buffer to the surface and damage it.
    AttachBackground,
    ReleaseOutput { id: u32 },
    DestroyThemedPointer { pointer: u32 },
    DestroyPinchGesture { id: u32 },
    ReleasePointer { pointer: u32 },
    /// Leave the dispatch loop: the window was closed.
    BreakDispatch,
}

#[derive(Debug)]
pub struct Window {
    /// Identities of the outputs that the surface overlaps.
    pub outputs: HashSet<u32>,
    /// Fractional scale in 120ths, once the compositor has reported one.
    pub scale120: Option<u32>,
    pub mapped: bool,
    /// Token of the frame that the compositor has not yet acknowledged.
    pub throttle: Option<u32>,
    /// Whether a redraw was asked for while a token was outstanding.
    pub throttled: bool,
    pub width: u32,
    pub height: u32,
    pub fullscreen: bool,
    pub closed: bool,
    /// Token that the next frame will carry.
    pub next_token: u32,
}

/// A window as a mathematical value.
pub struct WindowView {
    pub outputs: Set<u32>,
    pub scale120: Option<u32>,
    pub mapped: bool,
    pub throttle: Option<u32>,
    pub throttled: bool,
    pub width: u32,
    pub height: u32,
    pub fullscreen: bool,
    pub closed: bool,
    pub next_token: u32,
}

impl View for Window {
    type V = WindowView;

    open spec fn view(&self) -> WindowView {
        WindowView {
            outputs: self.outputs@,
            scale120: self.scale120,
            mapped: self.mapped,
            throttle: self.throttle,
            throttled: self.throttled,
            width: self.width,
            height: self.height,
            fullscreen: self.fullscreen,
            closed: self.closed,
            next_token: self.next_token,
        }
    }
}

impl WindowView {
    /// A window that was just created: unmapped, 400 by 300, on no output.
    pub open spec fn initial() -> WindowView {
        WindowView {
            outputs: Set::empty(),
            scale120: None,
            mapped: false,
            throttle: None,
            throttled: false,
            width: 400,
            height: 300,
            fullscreen: false,
            closed: false,
            next_token: 0,
        }
    }

    /// The request that toggles fullscreen: it leaves fullscreen where the
    /// window is fullscreen and enters it where it is not.
    pub open spec fn toggle_fullscreen(self) -> Effect {
        if self.fullscreen {
            Effect::UnsetFullscreen
        } else {
            Effect::SetFullscreen
        }
    }

    /// The window after a toplevel configure event. A size that is not
    /// positive leaves the size as it is.
    pub open spec fn configured(self, width: i32, height: i32, fullscreen: bool) -> WindowView {
        WindowView {
            width: if width > 0 { width as u32 } else { self.width },
            height: if height > 0 { height as u32 } else { self.height },
            fullscreen,
            ..self
        }
    }
}

impl Window {
    /// A window that was just created: unmapped, 400 by 300, on no output.
    pub fn new() -> (w: Window)
        ensures
            w@ == WindowView::initial(),
    {
        Window {
            outputs: HashSet::new(),
            scale120: None,
            mapped: false,
            throttle: None,
            throttled: false,
            width: 400,
            height: 300,
            fullscreen: false,
            closed: false,
            next_token: 0,
        }
    }

    /// The request that toggles fullscreen. The flag itself follows the
    /// compositor's next configure event.
    pub fn toggle_fullscreen(&self) -> (e: Effect)
        ensures
            e == self@.toggle_fullscreen(),
    {
        if self.fullscreen {
            Effect::UnsetFullscreen
        } else {
            Effect::SetFullscreen
        }
    }

    /// Takes over the size and the fullscreen flag of a toplevel configure
    /// event whose state list is already decoded.
    pub fn configure(&mut self, width: i32, height: i32, states: &Vec<u32>)
        ensures
            final(self)@ == old(self)@.configured(width, height, states@.contains(2u32)),
    {
        if width > 0 {
            self.width = width as u32;
        }
        if height > 0 {
            self.height = height as u32;
        }
        self.fullscreen = crate::wire::has_fullscreen(states);
    }

    /// Takes over the size and the fullscreen flag of a toplevel configure
    /// event whose state list is still in bytes: the window is configured
    /// with the numbers that the bytes spell, in the machine's byte order.
    pub fn configure_bytes(&mut self, width: i32, height: i32, states: &[u8])
        ensures
            exists|decoded: Seq<u32>|
                crate::wire::decodes(states@, decoded) && final(self)@ == old(self)@.configured(
                    width,
                    height,
                    #[trigger] decoded.contains(2u32),
                ),
    {
        let decoded = crate::wire::decode_states(states);
        self.configure(width, height, &decoded);
    }
}

} // verus!
