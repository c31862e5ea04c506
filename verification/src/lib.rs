//! A verified model of a Metal-style presentation surface: the binding of a
//! window's content view to a compositor layer, and the per-frame handoff of
//! drawables (presentable backing surfaces) to a rendering backend.
//!
//! The library owns the surface/swap-chain lifecycle: creating a presentation
//! layer sized to a window, acquiring a fresh drawable each frame, retiring
//! the previous one exactly once, and exposing the current color target.
//! Platform calls (AppKit, Metal, the window system) live outside the
//! library; it works on plain handles and is verified for every value of
//! them.

pub mod format;
pub mod surface;
pub mod window;
