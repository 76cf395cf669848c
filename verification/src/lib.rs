//! A minimal software-framebuffer window core: window creation and teardown,
//! translation of a native event stream into polled input state, and the
//! integer-upscaled presentation of a CPU pixel buffer into a window surface.
//!
//! The native display server itself sits outside this crate: callers probe it,
//! hand its raw answers and its queued events in as plain values, and carry
//! the computed surface buffers and release actions back out to it.

pub mod display;
pub mod events;
pub mod input;
pub mod window;
