//! What a backend reports: keys, pointers, touches and the raw input of a frame.

use crate::fixed::Fixed;
use crate::geometry::{Pos2, Rect, SafeArea, Vec2};
use crate::modifiers::Modifiers;
use crate::time::Nanos;
use std::collections::HashMap;
use vstd::prelude::*;

verus! {

/// A key of the keyboard.
#[derive(Clone, Copy, Debug, PartialEq, Eq, PartialOrd, Ord, Hash, Structural)]
pub enum Key {
    ArrowDown,
    ArrowLeft,
    ArrowRight,
    ArrowUp,
    Escape,
    Tab,
    Backspace,
    Enter,
    Space,
    Insert,
    Delete,
    Home,
    End,
    PageUp,
    PageDown,
    Copy,
    Cut,
    Paste,
    Colon,
    Comma,
    Backslash,
    Slash,
    Pipe,
    Questionmark,
    Exclamationmark,
    OpenBracket,
    CloseBracket,
    OpenCurlyBracket,
    CloseCurlyBracket,
    Backtick,
    Minus,
    Period,
    Plus,
    Equals,
    Semicolon,
    Quote,
    Num0,
    Num1,
    Num2,
    Num3,
    Num4,
    Num5,
    Num6,
    Num7,
    Num8,
    Num9,
    A,
    B,
    C,
    D,
    E,
    F,
    G,
    H,
    I,
    J,
    K,
    L,
    M,
    N,
    O,
    P,
    Q,
    R,
    S,
    T,
    U,
    V,
    W,
    X,
    Y,
    Z,
    F1,
    F2,
    F3,
    F4,
    F5,
    F6,
    F7,
    F8,
    F9,
    F10,
    F11,
    F12,
    F13,
    F14,
    F15,
    F16,
    F17,
    F18,
    F19,
    F20,
    F21,
    F22,
    F23,
    F24,
    F25,
    F26,
    F27,
    F28,
    F29,
    F30,
    F31,
    F32,
    F33,
    F34,
    F35,
    BrowserBack,
}

/// The number of pointer buttons.
pub const NUM_POINTER_BUTTONS: usize = 5;

/// A button of a mouse.
#[derive(Clone, Copy, Debug, PartialEq, Eq, PartialOrd, Ord, Hash, Structural)]
pub enum PointerButton {
    Primary,
    Secondary,
    Middle,
    Extra1,
    Extra2,
}

impl PointerButton {
    pub open spec fn spec_index(self) -> usize {
        match self {
            PointerButton::Primary => 0,
            PointerButton::Secondary => 1,
            PointerButton::Middle => 2,
            PointerButton::Extra1 => 3,
            PointerButton::Extra2 => 4,
        }
    }

    /// The place of the button among all of them.
    #[verifier::when_used_as_spec(spec_index)]
    pub fn index(self) -> (r: usize)
        ensures
            r == self.spec_index(),
            r < NUM_POINTER_BUTTONS,
    {
        match self {
            PointerButton::Primary => 0,
            PointerButton::Secondary => 1,
            PointerButton::Middle => 2,
            PointerButton::Extra1 => 3,
            PointerButton::Extra2 => 4,
        }
    }
}

/// The unit in which a mouse wheel counts.
#[derive(Clone, Copy, Debug, PartialEq, Eq, Structural)]
pub enum MouseWheelUnit {
    /// Points on the screen.
    Point,
    /// Lines of text.
    Line,
    /// Heights of the screen.
    Page,
}

/// A device with a touch surface.
#[derive(Clone, Copy, Debug, PartialEq, Eq, PartialOrd, Ord, Hash, Structural)]
pub struct TouchDeviceId {
    pub value: u64,
}

/// A finger on a touch device.
#[derive(Clone, Copy, Debug, PartialEq, Eq, PartialOrd, Ord, Hash, Structural)]
pub struct TouchId {
    pub value: u64,
}

/// What a finger does.
#[derive(Clone, Copy, Debug, PartialEq, Eq, Structural)]
pub enum TouchPhase {
    /// It is put down.
    Start,
    /// It moves.
    Move,
    /// It is lifted.
    End,
    /// The system takes the touch away.
    Cancel,
}

/// The identity of a widget.
#[derive(Clone, Copy, Debug, PartialEq, Eq, Hash, Structural)]
pub struct Id {
    pub value: u64,
}

impl Id {
    pub open spec fn spec_accesskit_id(self) -> u64 {
        self.value
    }

    /// The number of the widget's node in the accessibility tree.
    #[verifier::when_used_as_spec(spec_accesskit_id)]
    pub fn accesskit_id(self) -> (r: u64)
        ensures
            r == self.spec_accesskit_id(),
    {
        self.value
    }
}

/// What an assistive technology can ask of a node of the accessibility tree.
#[derive(Clone, Copy, Debug, PartialEq, Eq, Hash, Structural)]
pub enum Action {
    Click,
    Focus,
    Blur,
    Collapse,
    Expand,
    CustomAction,
    Decrement,
    Increment,
    HideTooltip,
    ShowTooltip,
    ReplaceSelectedText,
    ScrollDown,
    ScrollLeft,
    ScrollRight,
    ScrollUp,
    ScrollIntoView,
    ScrollToPoint,
    SetScrollOffset,
    SetTextSelection,
    SetSequentialFocusNavigationStartingPoint,
    SetValue,
    ShowContextMenu,
}

/// A request of an assistive technology.
#[derive(Clone, Copy, Debug, PartialEq, Eq, Structural)]
pub struct ActionRequest {
    /// What is asked.
    pub action: Action,
    /// The number of the node of which it is asked.
    pub target: u64,
    /// The key under which the backend keeps the data of the request, if it has any.
    pub data: Option<u64>,
}

/// Input from an input method.
#[derive(Debug, PartialEq, Eq)]
pub enum ImeEvent {
    Enabled,
    Preedit(String),
    Commit(String),
    Disabled,
}

/// Something that happened.
#[derive(Debug, PartialEq, Eq)]
pub enum Event {
    /// The user asks to copy.
    Copy,
    /// The user asks to cut.
    Cut,
    /// The user pastes this.
    Paste(String),
    /// The user enters this.
    Text(String),
    /// A key is pressed or released.
    Key {
        key: Key,
        /// The key at that place of the keyboard, whatever the layout.
        physical_key: Option<Key>,
        pressed: bool,
        /// Whether the key was down already.
        repeat: bool,
        modifiers: Modifiers,
    },
    /// The pointer is at this position now.
    PointerMoved(Pos2),
    /// The mouse moved by this much, in unspecified units.
    MouseMoved(Vec2),
    /// A button of the pointer is pressed or released.
    PointerButton { pos: Pos2, button: PointerButton, pressed: bool, modifiers: Modifiers },
    /// The pointer left the area, or the last finger was lifted.
    PointerGone,
    /// The user zooms by this factor.
    Zoom(Fixed),
    /// Input from an input method.
    Ime(ImeEvent),
    /// A finger touches, moves or is lifted.
    Touch { device_id: TouchDeviceId, id: TouchId, phase: TouchPhase, pos: Pos2, force: Option<Fixed> },
    /// The mouse wheel turns.
    MouseWheel { unit: MouseWheelUnit, delta: Vec2, modifiers: Modifiers },
    /// The window gains or loses the keyboard focus.
    WindowFocused(bool),
    /// An assistive technology asks for something.
    AccessKitActionRequest(ActionRequest),
    /// A picture of a viewport is ready.
    Screenshot {
        viewport_id: u64,
        /// The key under which the backend keeps the picture.
        image: u64,
    },
}

impl Clone for ImeEvent {
    fn clone(&self) -> (r: Self)
        ensures
            r == *self,
    {
        match self {
            ImeEvent::Enabled => ImeEvent::Enabled,
            ImeEvent::Preedit(text) => ImeEvent::Preedit(text.clone()),
            ImeEvent::Commit(text) => ImeEvent::Commit(text.clone()),
            ImeEvent::Disabled => ImeEvent::Disabled,
        }
    }
}

impl Clone for Event {
    fn clone(&self) -> (r: Self)
        ensures
            r == *self,
    {
        match self {
            Event::Copy => Event::Copy,
            Event::Cut => Event::Cut,
            Event::Paste(text) => Event::Paste(text.clone()),
            Event::Text(text) => Event::Text(text.clone()),
            Event::Key { key, physical_key, pressed, repeat, modifiers } => Event::Key {
                key: *key,
                physical_key: *physical_key,
                pressed: *pressed,
                repeat: *repeat,
                modifiers: *modifiers,
            },
            Event::PointerMoved(pos) => Event::PointerMoved(*pos),
            Event::MouseMoved(delta) => Event::MouseMoved(*delta),
            Event::PointerButton { pos, button, pressed, modifiers } => Event::PointerButton {
                pos: *pos,
                button: *button,
                pressed: *pressed,
                modifiers: *modifiers,
            },
            Event::PointerGone => Event::PointerGone,
            Event::Zoom(factor) => Event::Zoom(*factor),
            Event::Ime(ime) => Event::Ime(ime.clone()),
            Event::Touch { device_id, id, phase, pos, force } => Event::Touch {
                device_id: *device_id,
                id: *id,
                phase: *phase,
                pos: *pos,
                force: *force,
            },
            Event::MouseWheel { unit, delta, modifiers } => Event::MouseWheel {
                unit: *unit,
                delta: *delta,
                modifiers: *modifiers,
            },
            Event::WindowFocused(focused) => Event::WindowFocused(*focused),
            Event::AccessKitActionRequest(request) => Event::AccessKitActionRequest(*request),
            Event::Screenshot { viewport_id, image } => Event::Screenshot {
                viewport_id: *viewport_id,
                image: *image,
            },
        }
    }
}

/// Copies a list of events.
pub fn clone_events(events: &Vec<Event>) -> (r: Vec<Event>)
    ensures
        r@ == events@,
{
    let r = events.clone();
    assert(r@ =~= events@);
    r
}

/// A shortcut: a key together with modifiers.
#[derive(Clone, Copy, Debug, PartialEq, Eq, Hash, Structural)]
pub struct KeyboardShortcut {
    pub modifiers: Modifiers,
    pub logical_key: Key,
}

/// Which of the keys that move the focus a widget wants for itself.
#[derive(Clone, Copy, Debug, PartialEq, Eq, Structural)]
pub struct EventFilter {
    pub tab: bool,
    pub horizontal_arrows: bool,
    pub vertical_arrows: bool,
    pub escape: bool,
}

impl EventFilter {
    pub open spec fn spec_matches(self, event: &Event) -> bool {
        match *event {
            Event::Key { key, .. } => match key {
                Key::Tab => self.tab,
                Key::ArrowUp | Key::ArrowDown => self.vertical_arrows,
                Key::ArrowLeft | Key::ArrowRight => self.horizontal_arrows,
                Key::Escape => self.escape,
                _ => true,
            },
            _ => true,
        }
    }

    /// Whether the filter lets the event through.
    #[verifier::when_used_as_spec(spec_matches)]
    pub fn matches(self, event: &Event) -> (r: bool)
        ensures
            r == self.spec_matches(event),
    {
        match event {
            Event::Key { key, .. } => match *key {
                Key::Tab => self.tab,
                Key::ArrowUp | Key::ArrowDown => self.vertical_arrows,
                Key::ArrowLeft | Key::ArrowRight => self.horizontal_arrows,
                Key::Escape => self.escape,
                _ => true,
            },
            _ => true,
        }
    }
}

/// What is known of a native window.
#[derive(Clone, Debug)]
pub struct ViewportInfo {
    pub title: Option<String>,
    pub native_pixels_per_point: Option<Fixed>,
    pub monitor_size: Option<Vec2>,
    pub inner_rect: Option<Rect>,
    pub outer_rect: Option<Rect>,
    pub minimized: Option<bool>,
    pub maximized: Option<bool>,
    pub fullscreen: Option<bool>,
    pub focused: Option<bool>,
}

impl Default for ViewportInfo {
    fn default() -> (r: Self)
        ensures
            r == ViewportInfo::nothing_known(),
    {
        ViewportInfo {
            title: None,
            native_pixels_per_point: None,
            monitor_size: None,
            inner_rect: None,
            outer_rect: None,
            minimized: None,
            maximized: None,
            fullscreen: None,
            focused: None,
        }
    }
}

impl ViewportInfo {
    /// A window of which nothing is known.
    pub open spec fn nothing_known() -> ViewportInfo {
        ViewportInfo {
            title: None,
            native_pixels_per_point: None,
            monitor_size: None,
            inner_rect: None,
            outer_rect: None,
            minimized: None,
            maximized: None,
            fullscreen: None,
            focused: None,
        }
    }
}

/// The input that a backend gathered for one frame.
#[derive(Clone, Debug)]
pub struct RawInput {
    /// The window that is active.
    pub viewport_id: u64,
    /// What is known of each window.
    pub viewports: HashMap<u64, ViewportInfo>,
    /// The area of the interface, if it changed.
    pub screen_rect: Option<Rect>,
    /// The insets of the screen, if they changed.
    pub safe_area: Option<SafeArea>,
    /// The longest side that a texture can have, if it is known.
    pub max_texture_side: Option<usize>,
    /// The time of the frame, if the backend keeps time.
    pub time: Option<Nanos>,
    /// How long the frame is expected to take.
    pub predicted_dt: Nanos,
    /// The modifiers at the start of the frame.
    pub modifiers: Modifiers,
    /// What happened, in order.
    pub events: Vec<Event>,
    /// Whether the window has the keyboard focus.
    pub focused: bool,
}

impl Default for RawInput {
    fn default() -> (r: Self)
        ensures
            r.viewport_id == 0,
            r.viewports@ == Map::<u64, ViewportInfo>::empty().insert(0, ViewportInfo::nothing_known()),
            r.screen_rect is None,
            r.safe_area is None,
            r.max_texture_side is None,
            r.time is None,
            r.predicted_dt == 16_666_667,
            r.modifiers == Modifiers::none(),
            r.events@ == Seq::<Event>::empty(),
            r.focused,
    {
        broadcast use vstd::std_specs::hash::group_hash_axioms;

        let mut viewports: HashMap<u64, ViewportInfo> = HashMap::new();
        viewports.insert(0, ViewportInfo::default());
        RawInput {
            viewport_id: 0,
            viewports,
            screen_rect: None,
            safe_area: None,
            max_texture_side: None,
            time: None,
            predicted_dt: 16_666_667,
            modifiers: Modifiers::none(),
            events: Vec::new(),
            focused: true,
        }
    }
}

impl RawInput {
    /// What is known of the active window.
    pub fn viewport(&self) -> (r: &ViewportInfo)
        requires
            self.viewports@.contains_key(self.viewport_id),
        ensures
            *r == self.viewports@[self.viewport_id],
    {
        broadcast use vstd::std_specs::hash::group_hash_axioms;

        self.viewports.get(&self.viewport_id).unwrap()
    }

    /// Whether two inputs agree in all but the events.
    pub open spec fn same_but_events(self, other: RawInput) -> bool {
        &&& self.viewport_id == other.viewport_id
        &&& self.viewports == other.viewports
        &&& self.screen_rect == other.screen_rect
        &&& self.safe_area == other.safe_area
        &&& self.max_texture_side == other.max_texture_side
        &&& self.time == other.time
        &&& self.predicted_dt == other.predicted_dt
        &&& self.modifiers == other.modifiers
        &&& self.focused == other.focused
    }
}

} // verus!
