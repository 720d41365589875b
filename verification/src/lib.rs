//! The input of a graphical user interface, gathered frame by frame.
//!
//! A backend hands over what happened since the last frame as a [`RawInput`]. An
//! [`InputState`] takes it in and answers what a widget wants to know: which keys are
//! down, whether a press has become a click, a double click or a drag, how far the user
//! scrolls and zooms, and how soon the next frame is due.
//!
//! Lengths and factors are fixed-point numbers, see [`fixed`], and times are nanoseconds,
//! see [`time`]. What holds of the input state from frame to frame stands in [`laws`].

pub mod data;
pub mod devices;
pub mod event_list;
pub mod fixed;
pub mod geometry;
pub mod history;
pub mod input;
pub mod keys;
pub mod laws;
pub mod modifiers;
pub mod options;
pub mod pointer;
pub mod scroll;
pub mod time;
pub mod touch;
pub mod ui;

pub use crate::data::{
    Action, ActionRequest, Event, EventFilter, Id, ImeEvent, Key, KeyboardShortcut, MouseWheelUnit, PointerButton,
    RawInput, TouchDeviceId, TouchId, TouchPhase, ViewportInfo,
};
pub use crate::fixed::Fixed;
pub use crate::geometry::{Pos2, Rect, SafeArea, Vec2};
pub use crate::input::InputState;
pub use crate::keys::KeySet;
pub use crate::modifiers::Modifiers;
pub use crate::options::InputOptions;
pub use crate::pointer::{Click, Hold, PointerEvent, PointerState};
pub use crate::time::Nanos;
pub use crate::touch::{Gesture, MultiTouchInfo};
