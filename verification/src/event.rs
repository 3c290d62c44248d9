//! Input and window events.

use vstd::prelude::*;

verus! {

/// A double-precision number, carried by its IEEE 754 bit pattern.
///
/// The library moves such numbers around and never computes with them.
#[derive(Clone, Copy, PartialEq, Eq, Debug)]
pub struct F64Bits {
    pub bits: u64,
}

/// A single-precision number, carried by its IEEE 754 bit pattern.
#[derive(Clone, Copy, PartialEq, Eq, Debug)]
pub struct F32Bits {
    pub bits: u32,
}

/// Whether a key or button went down or up.
#[derive(Clone, Copy, PartialEq, Eq, Debug)]
pub enum Action {
    Release,
    Press,
}

/// The modifier keys held while an event was produced.
#[derive(Clone, Copy, PartialEq, Eq, Debug)]
pub struct Modifiers {
    pub shift: bool,
    pub control: bool,
    pub alt: bool,
    pub logo: bool,
}

/// A mouse button.
#[derive(Clone, Copy, PartialEq, Eq, Debug)]
pub enum MouseButton {
    Button1,
    Button2,
    Button3,
    Button4,
    Button5,
    Button6,
    Button7,
    Button8,
}

/// A key of the keyboard.
#[derive(Clone, Copy, PartialEq, Eq, Debug)]
pub enum Key {
    Key1,
    Key2,
    Key3,
    Key4,
    Key5,
    Key6,
    Key7,
    Key8,
    Key9,
    Key0,
    A,
    B,
    C,
    D,
    E,
    F,
    G,
    H,
    I,
    J,
    K,
    L,
    M,
    N,
    O,
    P,
    Q,
    R,
    S,
    T,
    U,
    V,
    W,
    X,
    Y,
    Z,
    Escape,
    F1,
    F2,
    F3,
    F4,
    F5,
    F6,
    F7,
    F8,
    F9,
    F10,
    F11,
    F12,
    F13,
    F14,
    F15,
    F16,
    F17,
    F18,
    F19,
    F20,
    F21,
    F22,
    F23,
    F24,
    Snapshot,
    Scroll,
    Pause,
    Insert,
    Home,
    Delete,
    End,
    PageDown,
    PageUp,
    Left,
    Up,
    Right,
    Down,
    Back,
    Return,
    Space,
    Compose,
    Caret,
    Numlock,
    Numpad0,
    Numpad1,
    Numpad2,
    Numpad3,
    Numpad4,
    Numpad5,
    Numpad6,
    Numpad7,
    Numpad8,
    Numpad9,
    AbntC1,
    AbntC2,
    Add,
    Apostrophe,
    Apps,
    At,
    Ax,
    Backslash,
    Calculator,
    Capital,
    Colon,
    Comma,
    Convert,
    Decimal,
    Divide,
    Equals,
    Grave,
    Kana,
    Kanji,
    LAlt,
    LBracket,
    LControl,
    LShift,
    LWin,
    Mail,
    MediaSelect,
    MediaStop,
    Minus,
    Multiply,
    Mute,
    MyComputer,
    NavigateForward,
    NavigateBackward,
    NextTrack,
    NoConvert,
    NumpadComma,
    NumpadEnter,
    NumpadEquals,
    OEM102,
    Period,
    PlayPause,
    Power,
    PrevTrack,
    RAlt,
    RBracket,
    RControl,
    RShift,
    RWin,
    Semicolon,
    Slash,
    Sleep,
    Stop,
    Subtract,
    Sysrq,
    Tab,
    Underline,
    Unlabeled,
    VolumeDown,
    VolumeUp,
    Wake,
    WebBack,
    WebFavorites,
    WebForward,
    WebHome,
    WebRefresh,
    WebSearch,
    WebStop,
    Yen,
    Copy,
    Paste,
    Cut,
    Unknown,
}

/// An event of the window or of an input device.
///
/// An event is a value: once produced it never changes.
#[derive(Clone, Copy, PartialEq, Eq, Debug)]
pub enum WindowEvent {
    /// A key went down or up.
    Key(Key, Action, Modifiers),
    /// A mouse button went down or up.
    MouseButton(MouseButton, Action, Modifiers),
    /// The cursor moved to a position, in window pixels from the top-left corner.
    CursorPos(F64Bits, F64Bits, Modifiers),
    /// The wheel or pad scrolled by an amount along each axis.
    Scroll(F64Bits, F64Bits, Modifiers),
    /// The framebuffer got a new width and height.
    FramebufferSize(u32, u32),
    /// The window gained or lost the input focus.
    Focus(bool),
    /// The user asked to close the window.
    Close,
}

impl WindowEvent {
    /// Whether the event comes from the keyboard.
    pub open spec fn spec_is_keyboard_event(&self) -> bool {
        *self is Key
    }

    /// Whether the event comes from the mouse.
    pub open spec fn spec_is_mouse_event(&self) -> bool {
        *self is MouseButton || *self is CursorPos || *self is Scroll
    }

    /// Whether the event asks the window to close: an explicit close request,
    /// or the release of the Escape key.
    pub open spec fn spec_is_close_request(&self) -> bool {
        *self is Close || (*self matches WindowEvent::Key(key, action, _) && key is Escape
            && action is Release)
    }

    /// Whether the event comes from the keyboard.
    #[verifier::when_used_as_spec(spec_is_keyboard_event)]
    pub fn is_keyboard_event(&self) -> (b: bool)
        ensures
            b == self.spec_is_keyboard_event(),
    {
        match self {
            WindowEvent::Key(_, _, _) => true,
            _ => false,
        }
    }

    /// Whether the event comes from the mouse.
    #[verifier::when_used_as_spec(spec_is_mouse_event)]
    pub fn is_mouse_event(&self) -> (b: bool)
        ensures
            b == self.spec_is_mouse_event(),
    {
        match self {
            WindowEvent::MouseButton(_, _, _) => true,
            WindowEvent::CursorPos(_, _, _) => true,
            WindowEvent::Scroll(_, _, _) => true,
            _ => false,
        }
    }

    /// Whether the event asks the window to close.
    #[verifier::when_used_as_spec(spec_is_close_request)]
    pub fn is_close_request(&self) -> (b: bool)
        ensures
            b == self.spec_is_close_request(),
    {
        match self {
            WindowEvent::Close => true,
            WindowEvent::Key(Key::Escape, Action::Release, _) => true,
            _ => false,
        }
    }
}

} // verus!
