//! An immediate-mode editable text widget core.
//!
//! Each UI frame the host hands this library the current interaction state,
//! the frame's input events, the wall clock and a wrapped layout of the
//! buffer; the library decides focus requests, mutates the text buffer,
//! derives the blinking caret and assembles the paint commands. Nothing here
//! persists between frames: the only state is the caller-owned buffer and the
//! host's focus registry.

pub mod caret;
pub mod color;
pub mod edit;
pub mod events;
pub mod geometry;
pub mod layout;
pub mod widget;

pub use color::Color;
pub use events::{Event, Key};
pub use geometry::{Rect, Vec2};
pub use layout::{Galley, LineMetrics};
pub use widget::{CursorIcon, FrameInput, FrameOutput, GuiResponse, Id, InteractInfo, PaintCmd,
    TextEdit, TextStyle};
