//! Frame input/render adapter for an immediate-mode UI overlay.
//!
//! The adapter accumulates raw device input (pointer position, button
//! state, scroll delta, key state, text input) delivered by a host event
//! loop between frames, and on each render tick hands back a complete
//! description of what to push into the UI library's input model. The
//! host side (window, GPU, UI library) lives outside this crate; the
//! adapter itself is pure state on plain values.

pub mod imgui_wrapper;
pub mod keymap;
pub mod laws;
pub mod shader;
