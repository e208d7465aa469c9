//! The coordination engine of an image viewer window: scale tracking, pan and
//! zoom, input routing, key repeat and frame throttling, as plain state
//! machines that take events and hand back the requests to perform.

pub mod transform;
pub mod output;
pub mod repeat;
pub mod lookup;
pub mod wire;
pub mod pointer;
pub mod window;
pub mod state;
pub mod input;
pub mod keyboard;
