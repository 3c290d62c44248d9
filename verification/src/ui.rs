//! The embedded user interface, as far as the window has to know it.
//!
//! The interface is an immediate-mode one in the manner of conrod, and the
//! names of keys, buttons and inputs here are conrod's. The window offers
//! every event to the interface first, in these names, and then asks which
//! widget holds the mouse and the keyboard. What the interface does with an
//! input is its own business.

use vstd::prelude::*;
use crate::event::{Action, F64Bits, Key, MouseButton, WindowEvent};

verus! {

/// A key, as the interface names it.
#[derive(Clone, Copy, PartialEq, Eq, Debug)]
pub enum UiKey {
    D1,
    D2,
    D3,
    D4,
    D5,
    D6,
    D7,
    D8,
    D9,
    D0,
    A,
    B,
    C,
    D,
    E,
    F,
    G,
    H,
    I,
    J,
    K,
    L,
    M,
    N,
    O,
    P,
    Q,
    R,
    S,
    T,
    U,
    V,
    W,
    X,
    Y,
    Z,
    Escape,
    F1,
    F2,
    F3,
    F4,
    F5,
    F6,
    F7,
    F8,
    F9,
    F10,
    F11,
    F12,
    F13,
    F14,
    F15,
    F16,
    F17,
    F18,
    F19,
    F20,
    F21,
    F22,
    F23,
    F24,
    Pause,
    Insert,
    Home,
    Delete,
    End,
    PageDown,
    PageUp,
    Left,
    Up,
    Right,
    Down,
    Return,
    Space,
    Caret,
    NumPad0,
    NumPad1,
    NumPad2,
    NumPad3,
    NumPad4,
    NumPad5,
    NumPad6,
    NumPad7,
    NumPad8,
    NumPad9,
    Plus,
    At,
    Backslash,
    Calculator,
    Colon,
    Comma,
    Equals,
    LeftBracket,
    LCtrl,
    LShift,
    Mail,
    MediaSelect,
    Minus,
    Mute,
    NumPadComma,
    NumPadEnter,
    NumPadEquals,
    Period,
    Power,
    RAlt,
    RightBracket,
    RCtrl,
    RShift,
    Semicolon,
    Slash,
    Sleep,
    Stop,
    Tab,
    VolumeDown,
    VolumeUp,
    Copy,
    Paste,
    Cut,
    Unknown,
}

/// A mouse button, as the interface names it.
#[derive(Clone, Copy, PartialEq, Eq, Debug)]
pub enum UiMouseButton {
    Left,
    Right,
    Middle,
    X1,
    X2,
    Button6,
    Button7,
    Button8,
}

/// A button of an input device.
#[derive(Clone, Copy, PartialEq, Eq, Debug)]
pub enum UiButton {
    Keyboard(UiKey),
    Mouse(UiMouseButton),
}

/// A movement of an input device. The numbers are those of the window event.
#[derive(Clone, Copy, PartialEq, Eq, Debug)]
pub enum UiMotion {
    /// The cursor is at this position of the window.
    MouseCursor { x: F64Bits, y: F64Bits },
    /// The wheel or pad scrolled by this amount.
    Scroll { x: F64Bits, y: F64Bits },
}

/// An input to the interface.
///
/// Lengths and positions are still in the window's frame: pixels of the
/// framebuffer, counted from the top-left corner. Whoever feeds the interface
/// rescales them to the frame that the interface uses.
#[derive(Clone, Copy, PartialEq, Eq, Debug)]
pub enum UiInput {
    /// A button went down.
    Press(UiButton),
    /// A button went up.
    Release(UiButton),
    /// The framebuffer got this width and height.
    Resize(u32, u32),
    /// An input device moved.
    Motion(UiMotion),
    /// The window gained or lost the input focus.
    Focus(bool),
}

/// The interface's name for a key. Keys that it has no name for are `Unknown`.
pub open spec fn spec_conrod_key(key: Key) -> UiKey {
    match key {
        Key::Key1 => UiKey::D1,
        Key::Key2 => UiKey::D2,
        Key::Key3 => UiKey::D3,
        Key::Key4 => UiKey::D4,
        Key::Key5 => UiKey::D5,
        Key::Key6 => UiKey::D6,
        Key::Key7 => UiKey::D7,
        Key::Key8 => UiKey::D8,
        Key::Key9 => UiKey::D9,
        Key::Key0 => UiKey::D0,
        Key::A => UiKey::A,
        Key::B => UiKey::B,
        Key::C => UiKey::C,
        Key::D => UiKey::D,
        Key::E => UiKey::E,
        Key::F => UiKey::F,
        Key::G => UiKey::G,
        Key::H => UiKey::H,
        Key::I => UiKey::I,
        Key::J => UiKey::J,
        Key::K => UiKey::K,
        Key::L => UiKey::L,
        Key::M => UiKey::M,
        Key::N => UiKey::N,
        Key::O => UiKey::O,
        Key::P => UiKey::P,
        Key::Q => UiKey::Q,
        Key::R => UiKey::R,
        Key::S => UiKey::S,
        Key::T => UiKey::T,
        Key::U => UiKey::U,
        Key::V => UiKey::V,
        Key::W => UiKey::W,
        Key::X => UiKey::X,
        Key::Y => UiKey::Y,
        Key::Z => UiKey::Z,
        Key::Escape => UiKey::Escape,
        Key::F1 => UiKey::F1,
        Key::F2 => UiKey::F2,
        Key::F3 => UiKey::F3,
        Key::F4 => UiKey::F4,
        Key::F5 => UiKey::F5,
        Key::F6 => UiKey::F6,
        Key::F7 => UiKey::F7,
        Key::F8 => UiKey::F8,
        Key::F9 => UiKey::F9,
        Key::F10 => UiKey::F10,
        Key::F11 => UiKey::F11,
        Key::F12 => UiKey::F12,
        Key::F13 => UiKey::F13,
        Key::F14 => UiKey::F14,
        Key::F15 => UiKey::F15,
        Key::F16 => UiKey::F16,
        Key::F17 => UiKey::F17,
        Key::F18 => UiKey::F18,
        Key::F19 => UiKey::F19,
        Key::F20 => UiKey::F20,
        Key::F21 => UiKey::F21,
        Key::F22 => UiKey::F22,
        Key::F23 => UiKey::F23,
        Key::F24 => UiKey::F24,
        Key::Pause => UiKey::Pause,
        Key::Insert => UiKey::Insert,
        Key::Home => UiKey::Home,
        Key::Delete => UiKey::Delete,
        Key::End => UiKey::End,
        Key::PageDown => UiKey::PageDown,
        Key::PageUp => UiKey::PageUp,
        Key::Left => UiKey::Left,
        Key::Up => UiKey::Up,
        Key::Right => UiKey::Right,
        Key::Down => UiKey::Down,
        Key::Return => UiKey::Return,
        Key::Space => UiKey::Space,
        Key::Caret => UiKey::Caret,
        Key::Numpad0 => UiKey::NumPad0,
        Key::Numpad1 => UiKey::NumPad1,
        Key::Numpad2 => UiKey::NumPad2,
        Key::Numpad3 => UiKey::NumPad3,
        Key::Numpad4 => UiKey::NumPad4,
        Key::Numpad5 => UiKey::NumPad5,
        Key::Numpad6 => UiKey::NumPad6,
        Key::Numpad7 => UiKey::NumPad7,
        Key::Numpad8 => UiKey::NumPad8,
        Key::Numpad9 => UiKey::NumPad9,
        Key::Add => UiKey::Plus,
        Key::At => UiKey::At,
        Key::Backslash => UiKey::Backslash,
        Key::Calculator => UiKey::Calculator,
        Key::Colon => UiKey::Colon,
        Key::Comma => UiKey::Comma,
        Key::Equals => UiKey::Equals,
        Key::LBracket => UiKey::LeftBracket,
        Key::LControl => UiKey::LCtrl,
        Key::LShift => UiKey::LShift,
        Key::Mail => UiKey::Mail,
        Key::MediaSelect => UiKey::MediaSelect,
        Key::Minus => UiKey::Minus,
        Key::Mute => UiKey::Mute,
        Key::NumpadComma => UiKey::NumPadComma,
        Key::NumpadEnter => UiKey::NumPadEnter,
        Key::NumpadEquals => UiKey::NumPadEquals,
        Key::Period => UiKey::Period,
        Key::Power => UiKey::Power,
        Key::RAlt => UiKey::RAlt,
        Key::RBracket => UiKey::RightBracket,
        Key::RControl => UiKey::RCtrl,
        Key::RShift => UiKey::RShift,
        Key::Semicolon => UiKey::Semicolon,
        Key::Slash => UiKey::Slash,
        Key::Sleep => UiKey::Sleep,
        Key::Stop => UiKey::Stop,
        Key::Tab => UiKey::Tab,
        Key::VolumeDown => UiKey::VolumeDown,
        Key::VolumeUp => UiKey::VolumeUp,
        Key::Copy => UiKey::Copy,
        Key::Paste => UiKey::Paste,
        Key::Cut => UiKey::Cut,
        _ => UiKey::Unknown,
    }
}

/// The interface's name for a key.
#[verifier::when_used_as_spec(spec_conrod_key)]
pub fn conrod_key(key: Key) -> (k: UiKey)
    ensures
        k == spec_conrod_key(key),
{
    match key {
        Key::Key1 => UiKey::D1,
        Key::Key2 => UiKey::D2,
        Key::Key3 => UiKey::D3,
        Key::Key4 => UiKey::D4,
        Key::Key5 => UiKey::D5,
        Key::Key6 => UiKey::D6,
        Key::Key7 => UiKey::D7,
        Key::Key8 => UiKey::D8,
        Key::Key9 => UiKey::D9,
        Key::Key0 => UiKey::D0,
        Key::A => UiKey::A,
        Key::B => UiKey::B,
        Key::C => UiKey::C,
        Key::D => UiKey::D,
        Key::E => UiKey::E,
        Key::F => UiKey::F,
        Key::G => UiKey::G,
        Key::H => UiKey::H,
        Key::I => UiKey::I,
        Key::J => UiKey::J,
        Key::K => UiKey::K,
        Key::L => UiKey::L,
        Key::M => UiKey::M,
        Key::N => UiKey::N,
        Key::O => UiKey::O,
        Key::P => UiKey::P,
        Key::Q => UiKey::Q,
        Key::R => UiKey::R,
        Key::S => UiKey::S,
        Key::T => UiKey::T,
        Key::U => UiKey::U,
        Key::V => UiKey::V,
        Key::W => UiKey::W,
        Key::X => UiKey::X,
        Key::Y => UiKey::Y,
        Key::Z => UiKey::Z,
        Key::Escape => UiKey::Escape,
        Key::F1 => UiKey::F1,
        Key::F2 => UiKey::F2,
        Key::F3 => UiKey::F3,
        Key::F4 => UiKey::F4,
        Key::F5 => UiKey::F5,
        Key::F6 => UiKey::F6,
        Key::F7 => UiKey::F7,
        Key::F8 => UiKey::F8,
        Key::F9 => UiKey::F9,
        Key::F10 => UiKey::F10,
        Key::F11 => UiKey::F11,
        Key::F12 => UiKey::F12,
        Key::F13 => UiKey::F13,
        Key::F14 => UiKey::F14,
        Key::F15 => UiKey::F15,
        Key::F16 => UiKey::F16,
        Key::F17 => UiKey::F17,
        Key::F18 => UiKey::F18,
        Key::F19 => UiKey::F19,
        Key::F20 => UiKey::F20,
        Key::F21 => UiKey::F21,
        Key::F22 => UiKey::F22,
        Key::F23 => UiKey::F23,
        Key::F24 => UiKey::F24,
        Key::Pause => UiKey::Pause,
        Key::Insert => UiKey::Insert,
        Key::Home => UiKey::Home,
        Key::Delete => UiKey::Delete,
        Key::End => UiKey::End,
        Key::PageDown => UiKey::PageDown,
        Key::PageUp => UiKey::PageUp,
        Key::Left => UiKey::Left,
        Key::Up => UiKey::Up,
        Key::Right => UiKey::Right,
        Key::Down => UiKey::Down,
        Key::Return => UiKey::Return,
        Key::Space => UiKey::Space,
        Key::Caret => UiKey::Caret,
        Key::Numpad0 => UiKey::NumPad0,
        Key::Numpad1 => UiKey::NumPad1,
        Key::Numpad2 => UiKey::NumPad2,
        Key::Numpad3 => UiKey::NumPad3,
        Key::Numpad4 => UiKey::NumPad4,
        Key::Numpad5 => UiKey::NumPad5,
        Key::Numpad6 => UiKey::NumPad6,
        Key::Numpad7 => UiKey::NumPad7,
        Key::Numpad8 => UiKey::NumPad8,
        Key::Numpad9 => UiKey::NumPad9,
        Key::Add => UiKey::Plus,
        Key::At => UiKey::At,
        Key::Backslash => UiKey::Backslash,
        Key::Calculator => UiKey::Calculator,
        Key::Colon => UiKey::Colon,
        Key::Comma => UiKey::Comma,
        Key::Equals => UiKey::Equals,
        Key::LBracket => UiKey::LeftBracket,
        Key::LControl => UiKey::LCtrl,
        Key::LShift => UiKey::LShift,
        Key::Mail => UiKey::Mail,
        Key::MediaSelect => UiKey::MediaSelect,
        Key::Minus => UiKey::Minus,
        Key::Mute => UiKey::Mute,
        Key::NumpadComma => UiKey::NumPadComma,
        Key::NumpadEnter => UiKey::NumPadEnter,
        Key::NumpadEquals => UiKey::NumPadEquals,
        Key::Period => UiKey::Period,
        Key::Power => UiKey::Power,
        Key::RAlt => UiKey::RAlt,
        Key::RBracket => UiKey::RightBracket,
        Key::RControl => UiKey::RCtrl,
        Key::RShift => UiKey::RShift,
        Key::Semicolon => UiKey::Semicolon,
        Key::Slash => UiKey::Slash,
        Key::Sleep => UiKey::Sleep,
        Key::Stop => UiKey::Stop,
        Key::Tab => UiKey::Tab,
        Key::VolumeDown => UiKey::VolumeDown,
        Key::VolumeUp => UiKey::VolumeUp,
        Key::Copy => UiKey::Copy,
        Key::Paste => UiKey::Paste,
        Key::Cut => UiKey::Cut,
        _ => UiKey::Unknown,
    }
}

/// No two keys share a name: keys that the interface tells apart from
/// `Unknown` are told apart from each other.
pub proof fn lemma_key_names_are_distinct(first: Key, second: Key)
    requires
        spec_conrod_key(first) == spec_conrod_key(second),
        spec_conrod_key(first) != UiKey::Unknown,
    ensures
        first == second,
{
}

/// The interface's name for a mouse button.
pub open spec fn spec_conrod_mouse_button(button: MouseButton) -> UiMouseButton {
    match button {
        MouseButton::Button1 => UiMouseButton::Left,
        MouseButton::Button2 => UiMouseButton::Right,
        MouseButton::Button3 => UiMouseButton::Middle,
        MouseButton::Button4 => UiMouseButton::X1,
        MouseButton::Button5 => UiMouseButton::X2,
        MouseButton::Button6 => UiMouseButton::Button6,
        MouseButton::Button7 => UiMouseButton::Button7,
        MouseButton::Button8 => UiMouseButton::Button8,
    }
}

/// The interface's name for a mouse button.
#[verifier::when_used_as_spec(spec_conrod_mouse_button)]
pub fn conrod_mouse_button(button: MouseButton) -> (b: UiMouseButton)
    ensures
        b == spec_conrod_mouse_button(button),
{
    match button {
        MouseButton::Button1 => UiMouseButton::Left,
        MouseButton::Button2 => UiMouseButton::Right,
        MouseButton::Button3 => UiMouseButton::Middle,
        MouseButton::Button4 => UiMouseButton::X1,
        MouseButton::Button5 => UiMouseButton::X2,
        MouseButton::Button6 => UiMouseButton::Button6,
        MouseButton::Button7 => UiMouseButton::Button7,
        MouseButton::Button8 => UiMouseButton::Button8,
    }
}

/// The input that a button makes when it goes down or up.
pub open spec fn button_input(action: Action, button: UiButton) -> UiInput {
    match action {
        Action::Press => UiInput::Press(button),
        Action::Release => UiInput::Release(button),
    }
}

/// A window event in the interface's vocabulary, where it has a word for it.
///
/// Key and button events become presses and releases, cursor and scroll
/// events become motions, a new framebuffer size becomes a resize, and a
/// change of focus stays one. A request to close has no counterpart.
pub open spec fn spec_window_event_to_conrod_input(event: WindowEvent) -> Option<UiInput> {
    match event {
        WindowEvent::FramebufferSize(w, h) => Some(UiInput::Resize(w, h)),
        WindowEvent::Focus(focus) => Some(UiInput::Focus(focus)),
        WindowEvent::CursorPos(x, y, _) => Some(UiInput::Motion(UiMotion::MouseCursor { x, y })),
        WindowEvent::Scroll(x, y, _) => Some(UiInput::Motion(UiMotion::Scroll { x, y })),
        WindowEvent::MouseButton(button, action, _) => Some(
            button_input(action, UiButton::Mouse(spec_conrod_mouse_button(button))),
        ),
        WindowEvent::Key(key, action, _) => Some(
            button_input(action, UiButton::Keyboard(spec_conrod_key(key))),
        ),
        WindowEvent::Close => None,
    }
}

/// Puts a window event into the interface's vocabulary.
#[verifier::when_used_as_spec(spec_window_event_to_conrod_input)]
pub fn window_event_to_conrod_input(event: WindowEvent) -> (input: Option<UiInput>)
    ensures
        input == spec_window_event_to_conrod_input(event),
{
    match event {
        WindowEvent::FramebufferSize(w, h) => Some(UiInput::Resize(w, h)),
        WindowEvent::Focus(focus) => Some(UiInput::Focus(focus)),
        WindowEvent::CursorPos(x, y, _) => Some(UiInput::Motion(UiMotion::MouseCursor { x, y })),
        WindowEvent::Scroll(x, y, _) => Some(UiInput::Motion(UiMotion::Scroll { x, y })),
        WindowEvent::MouseButton(button, action, _) => {
            let button = UiButton::Mouse(conrod_mouse_button(button));
            match action {
                Action::Press => Some(UiInput::Press(button)),
                Action::Release => Some(UiInput::Release(button)),
            }
        },
        WindowEvent::Key(key, action, _) => {
            let key = UiButton::Keyboard(conrod_key(key));
            match action {
                Action::Press => Some(UiInput::Press(key)),
                Action::Release => Some(UiInput::Release(key)),
            }
        },
        WindowEvent::Close => None,
    }
}

/// What the interface is offered of an event in a dispatch pass: nothing of a
/// request to close, which the window keeps to itself, and any other event
/// in the interface's vocabulary.
pub open spec fn spec_interface_input(event: WindowEvent) -> Option<UiInput> {
    if event.spec_is_close_request() {
        None
    } else {
        spec_window_event_to_conrod_input(event)
    }
}

/// What the interface is offered of an event in a dispatch pass.
#[verifier::when_used_as_spec(spec_interface_input)]
pub fn interface_input(event: WindowEvent) -> (input: Option<UiInput>)
    ensures
        input == spec_interface_input(event),
{
    if event.is_close_request() {
        None
    } else {
        window_event_to_conrod_input(event)
    }
}

/// Which widgets hold the input devices, as the interface reports it.
///
/// Widgets are named by their index. `window` is the root widget, which
/// stands for the window itself.
#[derive(Clone, Copy, PartialEq, Eq, Debug)]
pub struct UiFocus {
    pub window: usize,
    pub widget_capturing_mouse: Option<usize>,
    pub widget_capturing_keyboard: Option<usize>,
}

impl UiFocus {
    /// Whether a widget other than the root holds the mouse.
    pub open spec fn spec_capturing_mouse(&self) -> bool {
        self.widget_capturing_mouse matches Some(widget) && widget != self.window
    }

    /// Whether a widget other than the root holds the keyboard.
    pub open spec fn spec_capturing_keyboard(&self) -> bool {
        self.widget_capturing_keyboard matches Some(widget) && widget != self.window
    }

    /// Whether the interface keeps an event to itself: a keyboard event while
    /// a widget holds the keyboard, or a mouse event while a widget holds the
    /// mouse. Every other event passes.
    pub open spec fn spec_swallows(&self, event: &WindowEvent) -> bool {
        (event.spec_is_keyboard_event() && self.spec_capturing_keyboard()) || (
        event.spec_is_mouse_event() && self.spec_capturing_mouse())
    }

    /// Whether a widget other than the root holds the mouse.
    #[verifier::when_used_as_spec(spec_capturing_mouse)]
    pub fn capturing_mouse(&self) -> (b: bool)
        ensures
            b == self.spec_capturing_mouse(),
    {
        match self.widget_capturing_mouse {
            Some(widget) => widget != self.window,
            None => false,
        }
    }

    /// Whether a widget other than the root holds the keyboard.
    #[verifier::when_used_as_spec(spec_capturing_keyboard)]
    pub fn capturing_keyboard(&self) -> (b: bool)
        ensures
            b == self.spec_capturing_keyboard(),
    {
        match self.widget_capturing_keyboard {
            Some(widget) => widget != self.window,
            None => false,
        }
    }

    /// Whether the interface keeps an event to itself.
    #[verifier::when_used_as_spec(spec_swallows)]
    pub fn swallows(&self, event: &WindowEvent) -> (b: bool)
        ensures
            b == self.spec_swallows(event),
    {
        (event.is_keyboard_event() && self.capturing_keyboard()) || (event.is_mouse_event()
            && self.capturing_mouse())
    }
}

} // verus!
