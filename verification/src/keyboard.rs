//! Keys: what the window system says of them, and the codes that handlers see.

use crate::events::ElementState;
use vstd::prelude::*;
use winit::keyboard::PhysicalKey;
use winit::platform::scancode::PhysicalKeyExtScancode;

verus! {

/// The place of a key where a keyboard has several with the same meaning.
#[derive(Clone, Copy, Debug, PartialEq, Eq, Structural)]
pub enum KeyLocation {
    Standard,
    Left,
    Right,
    Numpad,
}

/// The keys without a character of their own that have a [`VirtualKeyCode`].
/// The names are those of the window system.
#[derive(Clone, Copy, Debug, PartialEq, Eq, Structural)]
pub enum NamedKey {
    Alt,
    AltGraph,
    ArrowDown,
    ArrowLeft,
    ArrowRight,
    ArrowUp,
    AudioVolumeDown,
    AudioVolumeMute,
    AudioVolumeUp,
    Backspace,
    BrowserBack,
    BrowserFavorites,
    BrowserForward,
    BrowserHome,
    BrowserRefresh,
    BrowserSearch,
    BrowserStop,
    Compose,
    Control,
    Convert,
    Copy,
    Cut,
    Delete,
    End,
    Enter,
    Escape,
    F1,
    F2,
    F3,
    F4,
    F5,
    F6,
    F7,
    F8,
    F9,
    F10,
    F11,
    F12,
    F13,
    F14,
    F15,
    F16,
    F17,
    F18,
    F19,
    F20,
    F21,
    F22,
    F23,
    F24,
    GoBack,
    GoHome,
    Home,
    Insert,
    KanaMode,
    KanjiMode,
    LaunchMail,
    MediaPlayPause,
    MediaStop,
    NavigatePrevious,
    NonConvert,
    NumLock,
    PageDown,
    PageUp,
    Paste,
    Power,
    PrintScreen,
    ScrollLock,
    Shift,
    Tab,
    Super,
    /// Any other named key.
    Other,
}

/// What a key means in the keyboard layout of the user.
#[derive(Debug)]
pub enum Key {
    Named(NamedKey),
    /// The text that the key stands for.
    Character(String),
    Unidentified,
    Dead,
}

/// The keys that a handler is told of by name.
#[derive(Clone, Copy, Debug, PartialEq, Eq, Structural)]
pub enum VirtualKeyCode {
    LAlt,
    RAlt,
    Down,
    Left,
    Right,
    Up,
    VolumeDown,
    Mute,
    VolumeUp,
    Backspace,
    WebBack,
    WebFavorites,
    WebForward,
    WebHome,
    WebRefresh,
    WebSearch,
    WebStop,
    Compose,
    LControl,
    RControl,
    Convert,
    Copy,
    Cut,
    Delete,
    End,
    Return,
    NumpadEnter,
    Escape,
    F1,
    F2,
    F3,
    F4,
    F5,
    F6,
    F7,
    F8,
    F9,
    F10,
    F11,
    F12,
    F13,
    F14,
    F15,
    F16,
    F17,
    F18,
    F19,
    F20,
    F21,
    F22,
    F23,
    F24,
    NavigateBackward,
    Home,
    Insert,
    Kana,
    Kanji,
    Mail,
    PlayPause,
    MediaStop,
    NoConvert,
    Numlock,
    PageDown,
    PageUp,
    Paste,
    Power,
    PrintScreen,
    ScrollLock,
    LShift,
    RShift,
    Tab,
    LWin,
    RWin,
    A,
    B,
    C,
    D,
    E,
    F,
    G,
    H,
    I,
    J,
    K,
    L,
    M,
    N,
    O,
    P,
    Q,
    R,
    S,
    T,
    U,
    V,
    W,
    X,
    Y,
    Z,
    Key0,
    Numpad0,
    Key1,
    Numpad1,
    Key2,
    Numpad2,
    Key3,
    Numpad3,
    Key4,
    Numpad4,
    Key5,
    Numpad5,
    Key6,
    Numpad6,
    Key7,
    Numpad7,
    Key8,
    Numpad8,
    Key9,
    Numpad9,
    Plus,
    NumpadAdd,
    Minus,
    NumpadSubtract,
    Asterisk,
    NumpadMultiply,
    Slash,
    NumpadDivide,
    Comma,
    NumpadComma,
    Period,
    NumpadDecimal,
    Equals,
    NumpadEquals,
    Caret,
    Apostrophe,
    Backslash,
    Colon,
    Grave,
    LBracket,
    RBracket,
}

/// A key that was pressed, held down or released.
#[derive(Debug)]
pub struct KeyEvent {
    pub logical_key: Key,
    pub location: KeyLocation,
    pub state: ElementState,
    /// The text that the key press produced.
    pub text: Option<String>,
    /// The key is held down, and this is not its first press.
    pub repeat: bool,
    /// The number of the physical key, if it has one on this platform.
    pub scancode: Option<u32>,
}

/// An outside type: the place of a key on the keyboard, whatever the layout.
#[verifier::external_type_specification]
#[verifier::external_body]
pub struct ExPhysicalKey(PhysicalKey);

/// The numbers that `PhysicalKeyExtScancode::to_scancode` of `winit` gives to a
/// key, on one platform or another.
pub uninterp spec fn scancodes(key: PhysicalKey) -> Set<Option<u32>>;

/// Calls `PhysicalKeyExtScancode::to_scancode` of `winit`. The number is one of
/// those that it has for the key. Which one differs from platform to platform, so
/// no more is claimed of it.
#[verifier::external_body]
fn physical_key_scancode(key: PhysicalKey) -> (scancode: Option<u32>)
    ensures
        scancodes(key).contains(scancode),
{
    key.to_scancode()
}

impl KeyEvent {
    /// The event of a key, with the number that the platform gives to the
    /// physical key. What that number is depends on the platform.
    pub fn new(
        logical_key: Key,
        location: KeyLocation,
        state: ElementState,
        text: Option<String>,
        repeat: bool,
        physical_key: PhysicalKey,
    ) -> (event: KeyEvent)
        ensures
            event.logical_key == logical_key,
            event.location == location,
            event.state == state,
            event.text == text,
            event.repeat == repeat,
            scancodes(physical_key).contains(event.scancode),
    {
        KeyEvent {
            logical_key,
            location,
            state,
            text,
            repeat,
            scancode: physical_key_scancode(physical_key),
        }
    }

    /// The number that a handler is told: 0 where the key has none.
    pub open spec fn spec_handler_scancode(self) -> u32 {
        match self.scancode {
            Some(scancode) => scancode,
            None => 0,
        }
    }

    pub fn handler_scancode(&self) -> (scancode: u32)
        ensures
            scancode == self.spec_handler_scancode(),
    {
        match self.scancode {
            Some(scancode) => scancode,
            None => 0,
        }
    }
}

/// One of the codes of a key that is on both sides of the keyboard.
pub open spec fn left_or_right(
    location: KeyLocation,
    left: VirtualKeyCode,
    right: VirtualKeyCode,
) -> VirtualKeyCode {
    if location == KeyLocation::Right || location == KeyLocation::Numpad {
        right
    } else {
        left
    }
}

/// One of the codes of a key that is on the numeric keypad too.
pub open spec fn standard_or_numpad(
    location: KeyLocation,
    standard: VirtualKeyCode,
    numpad: VirtualKeyCode,
) -> VirtualKeyCode {
    if location == KeyLocation::Numpad {
        numpad
    } else {
        standard
    }
}

/// The code of a named key.
pub open spec fn named_key_code(key: NamedKey, location: KeyLocation) -> Option<VirtualKeyCode> {
    match key {
        NamedKey::Alt => Some(left_or_right(location, VirtualKeyCode::LAlt, VirtualKeyCode::RAlt)),
        NamedKey::AltGraph => Some(VirtualKeyCode::RAlt),
        NamedKey::ArrowDown => Some(VirtualKeyCode::Down),
        NamedKey::ArrowLeft => Some(VirtualKeyCode::Left),
        NamedKey::ArrowRight => Some(VirtualKeyCode::Right),
        NamedKey::ArrowUp => Some(VirtualKeyCode::Up),
        NamedKey::AudioVolumeDown => Some(VirtualKeyCode::VolumeDown),
        NamedKey::AudioVolumeMute => Some(VirtualKeyCode::Mute),
        NamedKey::AudioVolumeUp => Some(VirtualKeyCode::VolumeUp),
        NamedKey::Backspace => Some(VirtualKeyCode::Backspace),
        NamedKey::BrowserBack => Some(VirtualKeyCode::WebBack),
        NamedKey::BrowserFavorites => Some(VirtualKeyCode::WebFavorites),
        NamedKey::BrowserForward => Some(VirtualKeyCode::WebForward),
        NamedKey::BrowserHome => Some(VirtualKeyCode::WebHome),
        NamedKey::BrowserRefresh => Some(VirtualKeyCode::WebRefresh),
        NamedKey::BrowserSearch => Some(VirtualKeyCode::WebSearch),
        NamedKey::BrowserStop => Some(VirtualKeyCode::WebStop),
        NamedKey::Compose => Some(VirtualKeyCode::Compose),
        NamedKey::Control => Some(
            left_or_right(location, VirtualKeyCode::LControl, VirtualKeyCode::RControl),
        ),
        NamedKey::Convert => Some(VirtualKeyCode::Convert),
        NamedKey::Copy => Some(VirtualKeyCode::Copy),
        NamedKey::Cut => Some(VirtualKeyCode::Cut),
        NamedKey::Delete => Some(VirtualKeyCode::Delete),
        NamedKey::End => Some(VirtualKeyCode::End),
        NamedKey::Enter => Some(
            standard_or_numpad(location, VirtualKeyCode::Return, VirtualKeyCode::NumpadEnter),
        ),
        NamedKey::Escape => Some(VirtualKeyCode::Escape),
        NamedKey::F1 => Some(VirtualKeyCode::F1),
        NamedKey::F2 => Some(VirtualKeyCode::F2),
        NamedKey::F3 => Some(VirtualKeyCode::F3),
        NamedKey::F4 => Some(VirtualKeyCode::F4),
        NamedKey::F5 => Some(VirtualKeyCode::F5),
        NamedKey::F6 => Some(VirtualKeyCode::F6),
        NamedKey::F7 => Some(VirtualKeyCode::F7),
        NamedKey::F8 => Some(VirtualKeyCode::F8),
        NamedKey::F9 => Some(VirtualKeyCode::F9),
        NamedKey::F10 => Some(VirtualKeyCode::F10),
        NamedKey::F11 => Some(VirtualKeyCode::F11),
        NamedKey::F12 => Some(VirtualKeyCode::F12),
        NamedKey::F13 => Some(VirtualKeyCode::F13),
        NamedKey::F14 => Some(VirtualKeyCode::F14),
        NamedKey::F15 => Some(VirtualKeyCode::F15),
        NamedKey::F16 => Some(VirtualKeyCode::F16),
        NamedKey::F17 => Some(VirtualKeyCode::F17),
        NamedKey::F18 => Some(VirtualKeyCode::F18),
        NamedKey::F19 => Some(VirtualKeyCode::F19),
        NamedKey::F20 => Some(VirtualKeyCode::F20),
        NamedKey::F21 => Some(VirtualKeyCode::F21),
        NamedKey::F22 => Some(VirtualKeyCode::F22),
        NamedKey::F23 => Some(VirtualKeyCode::F23),
        NamedKey::F24 => Some(VirtualKeyCode::F24),
        NamedKey::GoBack => Some(VirtualKeyCode::NavigateBackward),
        NamedKey::GoHome => Some(VirtualKeyCode::Home),
        NamedKey::Home => Some(VirtualKeyCode::Home),
        NamedKey::Insert => Some(VirtualKeyCode::Insert),
        NamedKey::KanaMode => Some(VirtualKeyCode::Kana),
        NamedKey::KanjiMode => Some(VirtualKeyCode::Kanji),
        NamedKey::LaunchMail => Some(VirtualKeyCode::Mail),
        NamedKey::MediaPlayPause => Some(VirtualKeyCode::PlayPause),
        NamedKey::MediaStop => Some(VirtualKeyCode::MediaStop),
        NamedKey::NavigatePrevious => Some(VirtualKeyCode::NavigateBackward),
        NamedKey::NonConvert => Some(VirtualKeyCode::NoConvert),
        NamedKey::NumLock => Some(VirtualKeyCode::Numlock),
        NamedKey::PageDown => Some(VirtualKeyCode::PageDown),
        NamedKey::PageUp => Some(VirtualKeyCode::PageUp),
        NamedKey::Paste => Some(VirtualKeyCode::Paste),
        NamedKey::Power => Some(VirtualKeyCode::Power),
        NamedKey::PrintScreen => Some(VirtualKeyCode::PrintScreen),
        NamedKey::ScrollLock => Some(VirtualKeyCode::ScrollLock),
        NamedKey::Shift => Some(
            left_or_right(location, VirtualKeyCode::LShift, VirtualKeyCode::RShift),
        ),
        NamedKey::Tab => Some(VirtualKeyCode::Tab),
        NamedKey::Super => Some(
            left_or_right(location, VirtualKeyCode::LWin, VirtualKeyCode::RWin),
        ),
        NamedKey::Other => None,
    }
}

/// The code of a key that stands for a text, by the first character of it.
pub open spec fn character_key_code(c: char, location: KeyLocation) -> Option<VirtualKeyCode> {
    match c {
        'A' | 'a' => Some(VirtualKeyCode::A),
        'B' | 'b' => Some(VirtualKeyCode::B),
        'C' | 'c' => Some(VirtualKeyCode::C),
        'D' | 'd' => Some(VirtualKeyCode::D),
        'E' | 'e' => Some(VirtualKeyCode::E),
        'F' | 'f' => Some(VirtualKeyCode::F),
        'G' | 'g' => Some(VirtualKeyCode::G),
        'H' | 'h' => Some(VirtualKeyCode::H),
        'I' | 'i' => Some(VirtualKeyCode::I),
        'J' | 'j' => Some(VirtualKeyCode::J),
        'K' | 'k' => Some(VirtualKeyCode::K),
        'L' | 'l' => Some(VirtualKeyCode::L),
        'M' | 'm' => Some(VirtualKeyCode::M),
        'N' | 'n' => Some(VirtualKeyCode::N),
        'O' | 'o' => Some(VirtualKeyCode::O),
        'P' | 'p' => Some(VirtualKeyCode::P),
        'Q' | 'q' => Some(VirtualKeyCode::Q),
        'R' | 'r' => Some(VirtualKeyCode::R),
        'S' | 's' => Some(VirtualKeyCode::S),
        'T' | 't' => Some(VirtualKeyCode::T),
        'U' | 'u' => Some(VirtualKeyCode::U),
        'V' | 'v' => Some(VirtualKeyCode::V),
        'W' | 'w' => Some(VirtualKeyCode::W),
        'X' | 'x' => Some(VirtualKeyCode::X),
        'Y' | 'y' => Some(VirtualKeyCode::Y),
        'Z' | 'z' => Some(VirtualKeyCode::Z),
        '0' => Some(standard_or_numpad(location, VirtualKeyCode::Key0, VirtualKeyCode::Numpad0)),
        '1' => Some(standard_or_numpad(location, VirtualKeyCode::Key1, VirtualKeyCode::Numpad1)),
        '2' => Some(standard_or_numpad(location, VirtualKeyCode::Key2, VirtualKeyCode::Numpad2)),
        '3' => Some(standard_or_numpad(location, VirtualKeyCode::Key3, VirtualKeyCode::Numpad3)),
        '4' => Some(standard_or_numpad(location, VirtualKeyCode::Key4, VirtualKeyCode::Numpad4)),
        '5' => Some(standard_or_numpad(location, VirtualKeyCode::Key5, VirtualKeyCode::Numpad5)),
        '6' => Some(standard_or_numpad(location, VirtualKeyCode::Key6, VirtualKeyCode::Numpad6)),
        '7' => Some(standard_or_numpad(location, VirtualKeyCode::Key7, VirtualKeyCode::Numpad7)),
        '8' => Some(standard_or_numpad(location, VirtualKeyCode::Key8, VirtualKeyCode::Numpad8)),
        '9' => Some(standard_or_numpad(location, VirtualKeyCode::Key9, VirtualKeyCode::Numpad9)),
        '+' => Some(standard_or_numpad(location, VirtualKeyCode::Plus, VirtualKeyCode::NumpadAdd)),
        '-' => Some(
            standard_or_numpad(location, VirtualKeyCode::Minus, VirtualKeyCode::NumpadSubtract),
        ),
        '*' => Some(
            standard_or_numpad(location, VirtualKeyCode::Asterisk, VirtualKeyCode::NumpadMultiply),
        ),
        '/' => Some(
            standard_or_numpad(location, VirtualKeyCode::Slash, VirtualKeyCode::NumpadDivide),
        ),
        ',' => Some(
            standard_or_numpad(location, VirtualKeyCode::Comma, VirtualKeyCode::NumpadComma),
        ),
        '.' => Some(
            standard_or_numpad(location, VirtualKeyCode::Period, VirtualKeyCode::NumpadDecimal),
        ),
        '=' => Some(
            standard_or_numpad(location, VirtualKeyCode::Equals, VirtualKeyCode::NumpadEquals),
        ),
        '^' => Some(VirtualKeyCode::Caret),
        '\'' => Some(VirtualKeyCode::Apostrophe),
        '\\' => Some(VirtualKeyCode::Backslash),
        ':' => Some(VirtualKeyCode::Colon),
        '`' => Some(VirtualKeyCode::Grave),
        '(' => Some(VirtualKeyCode::LBracket),
        ')' => Some(VirtualKeyCode::RBracket),
        '\t' => Some(VirtualKeyCode::Tab),
        _ => None,
    }
}

/// The code of a key, if it has one.
pub open spec fn key_code(key: Key, location: KeyLocation) -> Option<VirtualKeyCode> {
    match key {
        Key::Named(key) => named_key_code(key, location),
        Key::Character(text) => if text@.len() > 0 {
            character_key_code(text@[0], location)
        } else {
            None
        },
        Key::Unidentified | Key::Dead => None,
    }
}

fn lr_variant(location: KeyLocation, left: VirtualKeyCode, right: VirtualKeyCode) -> (code:
    VirtualKeyCode)
    ensures
        code == left_or_right(location, left, right),
{
    match location {
        KeyLocation::Standard | KeyLocation::Left => left,
        KeyLocation::Right | KeyLocation::Numpad => right,
    }
}

fn numpad_variant(location: KeyLocation, normal: VirtualKeyCode, numpad: VirtualKeyCode) -> (code:
    VirtualKeyCode)
    ensures
        code == standard_or_numpad(location, normal, numpad),
{
    match location {
        KeyLocation::Standard | KeyLocation::Left | KeyLocation::Right => normal,
        KeyLocation::Numpad => numpad,
    }
}

/// The first character of a text, or the null character where it is empty.
fn first_character(text: &str) -> (c: char)
    ensures
        c == (if text@.len() > 0 {
            text@[0]
        } else {
            '\0'
        }),
{
    let mut chars = text.chars();
    match chars.next() {
        Some(c) => c,
        None => '\0',
    }
}

impl VirtualKeyCode {
    /// The code of the key in an event. A key without one is an error.
    pub fn try_from(event: &KeyEvent) -> (result: Result<VirtualKeyCode, ()>)
        ensures
            result == (match key_code(event.logical_key, event.location) {
                Some(code) => Ok(code),
                None => Err(()),
            }),
    {
        let location = event.location;
        Ok(
            match &event.logical_key {
                Key::Named(key) => match key {
                    NamedKey::Alt => lr_variant(
                        location,
                        VirtualKeyCode::LAlt,
                        VirtualKeyCode::RAlt,
                    ),
                    NamedKey::AltGraph => VirtualKeyCode::RAlt,
                    NamedKey::ArrowDown => VirtualKeyCode::Down,
                    NamedKey::ArrowLeft => VirtualKeyCode::Left,
                    NamedKey::ArrowRight => VirtualKeyCode::Right,
                    NamedKey::ArrowUp => VirtualKeyCode::Up,
                    NamedKey::AudioVolumeDown => VirtualKeyCode::VolumeDown,
                    NamedKey::AudioVolumeMute => VirtualKeyCode::Mute,
                    NamedKey::AudioVolumeUp => VirtualKeyCode::VolumeUp,
                    NamedKey::Backspace => VirtualKeyCode::Backspace,
                    NamedKey::BrowserBack => VirtualKeyCode::WebBack,
                    NamedKey::BrowserFavorites => VirtualKeyCode::WebFavorites,
                    NamedKey::BrowserForward => VirtualKeyCode::WebForward,
                    NamedKey::BrowserHome => VirtualKeyCode::WebHome,
                    NamedKey::BrowserRefresh => VirtualKeyCode::WebRefresh,
                    NamedKey::BrowserSearch => VirtualKeyCode::WebSearch,
                    NamedKey::BrowserStop => VirtualKeyCode::WebStop,
                    NamedKey::Compose => VirtualKeyCode::Compose,
                    NamedKey::Control => lr_variant(
                        location,
                        VirtualKeyCode::LControl,
                        VirtualKeyCode::RControl,
                    ),
                    NamedKey::Convert => VirtualKeyCode::Convert,
                    NamedKey::Copy => VirtualKeyCode::Copy,
                    NamedKey::Cut => VirtualKeyCode::Cut,
                    NamedKey::Delete => VirtualKeyCode::Delete,
                    NamedKey::End => VirtualKeyCode::End,
                    NamedKey::Enter => numpad_variant(
                        location,
                        VirtualKeyCode::Return,
                        VirtualKeyCode::NumpadEnter,
                    ),
                    NamedKey::Escape => VirtualKeyCode::Escape,
                    NamedKey::F1 => VirtualKeyCode::F1,
                    NamedKey::F2 => VirtualKeyCode::F2,
                    NamedKey::F3 => VirtualKeyCode::F3,
                    NamedKey::F4 => VirtualKeyCode::F4,
                    NamedKey::F5 => VirtualKeyCode::F5,
                    NamedKey::F6 => VirtualKeyCode::F6,
                    NamedKey::F7 => VirtualKeyCode::F7,
                    NamedKey::F8 => VirtualKeyCode::F8,
                    NamedKey::F9 => VirtualKeyCode::F9,
                    NamedKey::F10 => VirtualKeyCode::F10,
                    NamedKey::F11 => VirtualKeyCode::F11,
                    NamedKey::F12 => VirtualKeyCode::F12,
                    NamedKey::F13 => VirtualKeyCode::F13,
                    NamedKey::F14 => VirtualKeyCode::F14,
                    NamedKey::F15 => VirtualKeyCode::F15,
                    NamedKey::F16 => VirtualKeyCode::F16,
                    NamedKey::F17 => VirtualKeyCode::F17,
                    NamedKey::F18 => VirtualKeyCode::F18,
                    NamedKey::F19 => VirtualKeyCode::F19,
                    NamedKey::F20 => VirtualKeyCode::F20,
                    NamedKey::F21 => VirtualKeyCode::F21,
                    NamedKey::F22 => VirtualKeyCode::F22,
                    NamedKey::F23 => VirtualKeyCode::F23,
                    NamedKey::F24 => VirtualKeyCode::F24,
                    NamedKey::GoBack => VirtualKeyCode::NavigateBackward,
                    NamedKey::GoHome => VirtualKeyCode::Home,
                    NamedKey::Home => VirtualKeyCode::Home,
                    NamedKey::Insert => VirtualKeyCode::Insert,
                    NamedKey::KanaMode => VirtualKeyCode::Kana,
                    NamedKey::KanjiMode => VirtualKeyCode::Kanji,
                    NamedKey::LaunchMail => VirtualKeyCode::Mail,
                    NamedKey::MediaPlayPause => VirtualKeyCode::PlayPause,
                    NamedKey::MediaStop => VirtualKeyCode::MediaStop,
                    NamedKey::NavigatePrevious => VirtualKeyCode::NavigateBackward,
                    NamedKey::NonConvert => VirtualKeyCode::NoConvert,
                    NamedKey::NumLock => VirtualKeyCode::Numlock,
                    NamedKey::PageDown => VirtualKeyCode::PageDown,
                    NamedKey::PageUp => VirtualKeyCode::PageUp,
                    NamedKey::Paste => VirtualKeyCode::Paste,
                    NamedKey::Power => VirtualKeyCode::Power,
                    NamedKey::PrintScreen => VirtualKeyCode::PrintScreen,
                    NamedKey::ScrollLock => VirtualKeyCode::ScrollLock,
                    NamedKey::Shift => lr_variant(
                        location,
                        VirtualKeyCode::LShift,
                        VirtualKeyCode::RShift,
                    ),
                    NamedKey::Tab => VirtualKeyCode::Tab,
                    NamedKey::Super => lr_variant(
                        location,
                        VirtualKeyCode::LWin,
                        VirtualKeyCode::RWin,
                    ),
                    NamedKey::Other => return Err(()),
                },
                Key::Character(text) => match first_character(text.as_str()) {
                    'A' | 'a' => VirtualKeyCode::A,
                    'B' | 'b' => VirtualKeyCode::B,
                    'C' | 'c' => VirtualKeyCode::C,
                    'D' | 'd' => VirtualKeyCode::D,
                    'E' | 'e' => VirtualKeyCode::E,
                    'F' | 'f' => VirtualKeyCode::F,
                    'G' | 'g' => VirtualKeyCode::G,
                    'H' | 'h' => VirtualKeyCode::H,
                    'I' | 'i' => VirtualKeyCode::I,
                    'J' | 'j' => VirtualKeyCode::J,
                    'K' | 'k' => VirtualKeyCode::K,
                    'L' | 'l' => VirtualKeyCode::L,
                    'M' | 'm' => VirtualKeyCode::M,
                    'N' | 'n' => VirtualKeyCode::N,
                    'O' | 'o' => VirtualKeyCode::O,
                    'P' | 'p' => VirtualKeyCode::P,
                    'Q' | 'q' => VirtualKeyCode::Q,
                    'R' | 'r' => VirtualKeyCode::R,
                    'S' | 's' => VirtualKeyCode::S,
                    'T' | 't' => VirtualKeyCode::T,
                    'U' | 'u' => VirtualKeyCode::U,
                    'V' | 'v' => VirtualKeyCode::V,
                    'W' | 'w' => VirtualKeyCode::W,
                    'X' | 'x' => VirtualKeyCode::X,
                    'Y' | 'y' => VirtualKeyCode::Y,
                    'Z' | 'z' => VirtualKeyCode::Z,
                    '0' => numpad_variant(location, VirtualKeyCode::Key0, VirtualKeyCode::Numpad0),
                    '1' => numpad_variant(location, VirtualKeyCode::Key1, VirtualKeyCode::Numpad1),
                    '2' => numpad_variant(location, VirtualKeyCode::Key2, VirtualKeyCode::Numpad2),
                    '3' => numpad_variant(location, VirtualKeyCode::Key3, VirtualKeyCode::Numpad3),
                    '4' => numpad_variant(location, VirtualKeyCode::Key4, VirtualKeyCode::Numpad4),
                    '5' => numpad_variant(location, VirtualKeyCode::Key5, VirtualKeyCode::Numpad5),
                    '6' => numpad_variant(location, VirtualKeyCode::Key6, VirtualKeyCode::Numpad6),
                    '7' => numpad_variant(location, VirtualKeyCode::Key7, VirtualKeyCode::Numpad7),
                    '8' => numpad_variant(location, VirtualKeyCode::Key8, VirtualKeyCode::Numpad8),
                    '9' => numpad_variant(location, VirtualKeyCode::Key9, VirtualKeyCode::Numpad9),
                    '+' => numpad_variant(
                        location,
                        VirtualKeyCode::Plus,
                        VirtualKeyCode::NumpadAdd,
                    ),
                    '-' => numpad_variant(
                        location,
                        VirtualKeyCode::Minus,
                        VirtualKeyCode::NumpadSubtract,
                    ),
                    '*' => numpad_variant(
                        location,
                        VirtualKeyCode::Asterisk,
                        VirtualKeyCode::NumpadMultiply,
                    ),
                    '/' => numpad_variant(
                        location,
                        VirtualKeyCode::Slash,
                        VirtualKeyCode::NumpadDivide,
                    ),
                    ',' => numpad_variant(
                        location,
                        VirtualKeyCode::Comma,
                        VirtualKeyCode::NumpadComma,
                    ),
                    '.' => numpad_variant(
                        location,
                        VirtualKeyCode::Period,
                        VirtualKeyCode::NumpadDecimal,
                    ),
                    '=' => numpad_variant(
                        location,
                        VirtualKeyCode::Equals,
                        VirtualKeyCode::NumpadEquals,
                    ),
                    '^' => VirtualKeyCode::Caret,
                    '\'' => VirtualKeyCode::Apostrophe,
                    '\\' => VirtualKeyCode::Backslash,
                    ':' => VirtualKeyCode::Colon,
                    '`' => VirtualKeyCode::Grave,
                    '(' => VirtualKeyCode::LBracket,
                    ')' => VirtualKeyCode::RBracket,
                    '\t' => VirtualKeyCode::Tab,
                    _ => return Err(()),
                },
                Key::Unidentified | Key::Dead => return Err(()),
            },
        )
    }
}

/// A letter has the same code in upper and lower case.
pub proof fn law_letters_ignore_case(lower: char, location: KeyLocation)
    requires
        'a' <= lower <= 'z',
    ensures
        ({
            let upper = (lower as u32 - 'a' as u32 + 'A' as u32) as char;
            &&& character_key_code(lower, location) is Some
            &&& character_key_code(upper, location) == character_key_code(lower, location)
        }),
{
}

/// Whether a key has a code depends on the key alone. Where on the keyboard it is
/// decides only between the codes of keys with the same meaning.
pub proof fn law_location_chooses_among_codes(key: Key, location: KeyLocation, other: KeyLocation)
    ensures
        key_code(key, location) is Some <==> key_code(key, other) is Some,
        location != KeyLocation::Numpad && other != KeyLocation::Numpad && !(key is Named)
            ==> key_code(key, location) == key_code(key, other),
{
}

/// A handler is told of a function key by its own code, and of no other key by it.
pub proof fn law_function_keys(key: Key, location: KeyLocation)
    ensures
        ({
            let code = key_code(key, location);
            &&& code == Some(VirtualKeyCode::F1) <==> key == Key::Named(NamedKey::F1)
            &&& code == Some(VirtualKeyCode::F2) <==> key == Key::Named(NamedKey::F2)
            &&& code == Some(VirtualKeyCode::F3) <==> key == Key::Named(NamedKey::F3)
            &&& code == Some(VirtualKeyCode::F4) <==> key == Key::Named(NamedKey::F4)
            &&& code == Some(VirtualKeyCode::F5) <==> key == Key::Named(NamedKey::F5)
            &&& code == Some(VirtualKeyCode::F6) <==> key == Key::Named(NamedKey::F6)
            &&& code == Some(VirtualKeyCode::F7) <==> key == Key::Named(NamedKey::F7)
            &&& code == Some(VirtualKeyCode::F8) <==> key == Key::Named(NamedKey::F8)
            &&& code == Some(VirtualKeyCode::F9) <==> key == Key::Named(NamedKey::F9)
            &&& code == Some(VirtualKeyCode::F10) <==> key == Key::Named(NamedKey::F10)
            &&& code == Some(VirtualKeyCode::F11) <==> key == Key::Named(NamedKey::F11)
            &&& code == Some(VirtualKeyCode::F12) <==> key == Key::Named(NamedKey::F12)
            &&& code == Some(VirtualKeyCode::F13) <==> key == Key::Named(NamedKey::F13)
            &&& code == Some(VirtualKeyCode::F14) <==> key == Key::Named(NamedKey::F14)
            &&& code == Some(VirtualKeyCode::F15) <==> key == Key::Named(NamedKey::F15)
            &&& code == Some(VirtualKeyCode::F16) <==> key == Key::Named(NamedKey::F16)
            &&& code == Some(VirtualKeyCode::F17) <==> key == Key::Named(NamedKey::F17)
            &&& code == Some(VirtualKeyCode::F18) <==> key == Key::Named(NamedKey::F18)
            &&& code == Some(VirtualKeyCode::F19) <==> key == Key::Named(NamedKey::F19)
            &&& code == Some(VirtualKeyCode::F20) <==> key == Key::Named(NamedKey::F20)
            &&& code == Some(VirtualKeyCode::F21) <==> key == Key::Named(NamedKey::F21)
            &&& code == Some(VirtualKeyCode::F22) <==> key == Key::Named(NamedKey::F22)
            &&& code == Some(VirtualKeyCode::F23) <==> key == Key::Named(NamedKey::F23)
            &&& code == Some(VirtualKeyCode::F24) <==> key == Key::Named(NamedKey::F24)
        }),
{
}

/// A handler is told of a key without a character by the code that stands for it,
/// and of no other key by that code. Where there is such a key on both sides of the
/// keyboard, or on the number pad, the code says which it is.
pub proof fn law_named_keys(key: Key, location: KeyLocation)
    ensures
        ({
            let code = key_code(key, location);
            let far = location == KeyLocation::Right || location == KeyLocation::Numpad;
            let numpad = location == KeyLocation::Numpad;
            let text = key is Character && key->Character_0@.len() > 0;
            let c = key->Character_0@[0];
            &&& code == Some(VirtualKeyCode::LAlt) <==> key == Key::Named(NamedKey::Alt) && !far
            &&& code == Some(VirtualKeyCode::RAlt) <==> (key == Key::Named(NamedKey::Alt) && far) || (key == Key::Named(NamedKey::AltGraph))
            &&& code == Some(VirtualKeyCode::Down) <==> key == Key::Named(NamedKey::ArrowDown)
            &&& code == Some(VirtualKeyCode::Left) <==> key == Key::Named(NamedKey::ArrowLeft)
            &&& code == Some(VirtualKeyCode::Right) <==> key == Key::Named(NamedKey::ArrowRight)
            &&& code == Some(VirtualKeyCode::Up) <==> key == Key::Named(NamedKey::ArrowUp)
            &&& code == Some(VirtualKeyCode::VolumeDown) <==> key == Key::Named(NamedKey::AudioVolumeDown)
            &&& code == Some(VirtualKeyCode::Mute) <==> key == Key::Named(NamedKey::AudioVolumeMute)
            &&& code == Some(VirtualKeyCode::VolumeUp) <==> key == Key::Named(NamedKey::AudioVolumeUp)
            &&& code == Some(VirtualKeyCode::Backspace) <==> key == Key::Named(NamedKey::Backspace)
            &&& code == Some(VirtualKeyCode::WebBack) <==> key == Key::Named(NamedKey::BrowserBack)
            &&& code == Some(VirtualKeyCode::WebFavorites) <==> key == Key::Named(NamedKey::BrowserFavorites)
            &&& code == Some(VirtualKeyCode::WebForward) <==> key == Key::Named(NamedKey::BrowserForward)
            &&& code == Some(VirtualKeyCode::WebHome) <==> key == Key::Named(NamedKey::BrowserHome)
            &&& code == Some(VirtualKeyCode::WebRefresh) <==> key == Key::Named(NamedKey::BrowserRefresh)
            &&& code == Some(VirtualKeyCode::WebSearch) <==> key == Key::Named(NamedKey::BrowserSearch)
            &&& code == Some(VirtualKeyCode::WebStop) <==> key == Key::Named(NamedKey::BrowserStop)
            &&& code == Some(VirtualKeyCode::Compose) <==> key == Key::Named(NamedKey::Compose)
            &&& code == Some(VirtualKeyCode::LControl) <==> key == Key::Named(NamedKey::Control) && !far
            &&& code == Some(VirtualKeyCode::RControl) <==> key == Key::Named(NamedKey::Control) && far
            &&& code == Some(VirtualKeyCode::Convert) <==> key == Key::Named(NamedKey::Convert)
            &&& code == Some(VirtualKeyCode::Copy) <==> key == Key::Named(NamedKey::Copy)
            &&& code == Some(VirtualKeyCode::Cut) <==> key == Key::Named(NamedKey::Cut)
            &&& code == Some(VirtualKeyCode::Delete) <==> key == Key::Named(NamedKey::Delete)
            &&& code == Some(VirtualKeyCode::End) <==> key == Key::Named(NamedKey::End)
            &&& code == Some(VirtualKeyCode::Return) <==> key == Key::Named(NamedKey::Enter) && !numpad
            &&& code == Some(VirtualKeyCode::NumpadEnter) <==> key == Key::Named(NamedKey::Enter) && numpad
            &&& code == Some(VirtualKeyCode::Escape) <==> key == Key::Named(NamedKey::Escape)
            &&& code == Some(VirtualKeyCode::NavigateBackward) <==> (key == Key::Named(NamedKey::GoBack)) || (key == Key::Named(NamedKey::NavigatePrevious))
            &&& code == Some(VirtualKeyCode::Home) <==> (key == Key::Named(NamedKey::GoHome)) || (key == Key::Named(NamedKey::Home))
            &&& code == Some(VirtualKeyCode::Insert) <==> key == Key::Named(NamedKey::Insert)
            &&& code == Some(VirtualKeyCode::Kana) <==> key == Key::Named(NamedKey::KanaMode)
            &&& code == Some(VirtualKeyCode::Kanji) <==> key == Key::Named(NamedKey::KanjiMode)
            &&& code == Some(VirtualKeyCode::Mail) <==> key == Key::Named(NamedKey::LaunchMail)
            &&& code == Some(VirtualKeyCode::PlayPause) <==> key == Key::Named(NamedKey::MediaPlayPause)
            &&& code == Some(VirtualKeyCode::MediaStop) <==> key == Key::Named(NamedKey::MediaStop)
            &&& code == Some(VirtualKeyCode::NoConvert) <==> key == Key::Named(NamedKey::NonConvert)
            &&& code == Some(VirtualKeyCode::Numlock) <==> key == Key::Named(NamedKey::NumLock)
            &&& code == Some(VirtualKeyCode::PageDown) <==> key == Key::Named(NamedKey::PageDown)
            &&& code == Some(VirtualKeyCode::PageUp) <==> key == Key::Named(NamedKey::PageUp)
            &&& code == Some(VirtualKeyCode::Paste) <==> key == Key::Named(NamedKey::Paste)
            &&& code == Some(VirtualKeyCode::Power) <==> key == Key::Named(NamedKey::Power)
            &&& code == Some(VirtualKeyCode::PrintScreen) <==> key == Key::Named(NamedKey::PrintScreen)
            &&& code == Some(VirtualKeyCode::ScrollLock) <==> key == Key::Named(NamedKey::ScrollLock)
            &&& code == Some(VirtualKeyCode::LShift) <==> key == Key::Named(NamedKey::Shift) && !far
            &&& code == Some(VirtualKeyCode::RShift) <==> key == Key::Named(NamedKey::Shift) && far
            &&& code == Some(VirtualKeyCode::LWin) <==> key == Key::Named(NamedKey::Super) && !far
            &&& code == Some(VirtualKeyCode::RWin) <==> key == Key::Named(NamedKey::Super) && far
            &&& code == Some(VirtualKeyCode::Tab) <==> (key == Key::Named(NamedKey::Tab)) || (text && c == '\t')
        }),
{
}

/// A handler is told of a letter by its own code, and of nothing else by it.
pub proof fn law_letter_keys(key: Key, location: KeyLocation)
    ensures
        ({
            let code = key_code(key, location);
            let text = key is Character && key->Character_0@.len() > 0;
            let c = key->Character_0@[0];
            &&& code == Some(VirtualKeyCode::A) <==> text && (c == 'A' || c == 'a')
            &&& code == Some(VirtualKeyCode::B) <==> text && (c == 'B' || c == 'b')
            &&& code == Some(VirtualKeyCode::C) <==> text && (c == 'C' || c == 'c')
            &&& code == Some(VirtualKeyCode::D) <==> text && (c == 'D' || c == 'd')
            &&& code == Some(VirtualKeyCode::E) <==> text && (c == 'E' || c == 'e')
            &&& code == Some(VirtualKeyCode::F) <==> text && (c == 'F' || c == 'f')
            &&& code == Some(VirtualKeyCode::G) <==> text && (c == 'G' || c == 'g')
            &&& code == Some(VirtualKeyCode::H) <==> text && (c == 'H' || c == 'h')
            &&& code == Some(VirtualKeyCode::I) <==> text && (c == 'I' || c == 'i')
            &&& code == Some(VirtualKeyCode::J) <==> text && (c == 'J' || c == 'j')
            &&& code == Some(VirtualKeyCode::K) <==> text && (c == 'K' || c == 'k')
            &&& code == Some(VirtualKeyCode::L) <==> text && (c == 'L' || c == 'l')
            &&& code == Some(VirtualKeyCode::M) <==> text && (c == 'M' || c == 'm')
            &&& code == Some(VirtualKeyCode::N) <==> text && (c == 'N' || c == 'n')
            &&& code == Some(VirtualKeyCode::O) <==> text && (c == 'O' || c == 'o')
            &&& code == Some(VirtualKeyCode::P) <==> text && (c == 'P' || c == 'p')
            &&& code == Some(VirtualKeyCode::Q) <==> text && (c == 'Q' || c == 'q')
            &&& code == Some(VirtualKeyCode::R) <==> text && (c == 'R' || c == 'r')
            &&& code == Some(VirtualKeyCode::S) <==> text && (c == 'S' || c == 's')
            &&& code == Some(VirtualKeyCode::T) <==> text && (c == 'T' || c == 't')
            &&& code == Some(VirtualKeyCode::U) <==> text && (c == 'U' || c == 'u')
            &&& code == Some(VirtualKeyCode::V) <==> text && (c == 'V' || c == 'v')
            &&& code == Some(VirtualKeyCode::W) <==> text && (c == 'W' || c == 'w')
            &&& code == Some(VirtualKeyCode::X) <==> text && (c == 'X' || c == 'x')
            &&& code == Some(VirtualKeyCode::Y) <==> text && (c == 'Y' || c == 'y')
            &&& code == Some(VirtualKeyCode::Z) <==> text && (c == 'Z' || c == 'z')
        }),
{
}

/// A handler is told of a digit or a sign by its own code, and of nothing else by
/// it. On the number pad digits and the signs of arithmetic have other codes.
pub proof fn law_sign_keys(key: Key, location: KeyLocation)
    ensures
        ({
            let code = key_code(key, location);
            let numpad = location == KeyLocation::Numpad;
            let text = key is Character && key->Character_0@.len() > 0;
            let c = key->Character_0@[0];
            &&& code == Some(VirtualKeyCode::Key0) <==> text && c == '0' && !numpad
            &&& code == Some(VirtualKeyCode::Numpad0) <==> text && c == '0' && numpad
            &&& code == Some(VirtualKeyCode::Key1) <==> text && c == '1' && !numpad
            &&& code == Some(VirtualKeyCode::Numpad1) <==> text && c == '1' && numpad
            &&& code == Some(VirtualKeyCode::Key2) <==> text && c == '2' && !numpad
            &&& code == Some(VirtualKeyCode::Numpad2) <==> text && c == '2' && numpad
            &&& code == Some(VirtualKeyCode::Key3) <==> text && c == '3' && !numpad
            &&& code == Some(VirtualKeyCode::Numpad3) <==> text && c == '3' && numpad
            &&& code == Some(VirtualKeyCode::Key4) <==> text && c == '4' && !numpad
            &&& code == Some(VirtualKeyCode::Numpad4) <==> text && c == '4' && numpad
            &&& code == Some(VirtualKeyCode::Key5) <==> text && c == '5' && !numpad
            &&& code == Some(VirtualKeyCode::Numpad5) <==> text && c == '5' && numpad
            &&& code == Some(VirtualKeyCode::Key6) <==> text && c == '6' && !numpad
            &&& code == Some(VirtualKeyCode::Numpad6) <==> text && c == '6' && numpad
            &&& code == Some(VirtualKeyCode::Key7) <==> text && c == '7' && !numpad
            &&& code == Some(VirtualKeyCode::Numpad7) <==> text && c == '7' && numpad
            &&& code == Some(VirtualKeyCode::Key8) <==> text && c == '8' && !numpad
            &&& code == Some(VirtualKeyCode::Numpad8) <==> text && c == '8' && numpad
            &&& code == Some(VirtualKeyCode::Key9) <==> text && c == '9' && !numpad
            &&& code == Some(VirtualKeyCode::Numpad9) <==> text && c == '9' && numpad
            &&& code == Some(VirtualKeyCode::Plus) <==> text && c == '+' && !numpad
            &&& code == Some(VirtualKeyCode::NumpadAdd) <==> text && c == '+' && numpad
            &&& code == Some(VirtualKeyCode::Minus) <==> text && c == '-' && !numpad
            &&& code == Some(VirtualKeyCode::NumpadSubtract) <==> text && c == '-' && numpad
            &&& code == Some(VirtualKeyCode::Asterisk) <==> text && c == '*' && !numpad
            &&& code == Some(VirtualKeyCode::NumpadMultiply) <==> text && c == '*' && numpad
            &&& code == Some(VirtualKeyCode::Slash) <==> text && c == '/' && !numpad
            &&& code == Some(VirtualKeyCode::NumpadDivide) <==> text && c == '/' && numpad
            &&& code == Some(VirtualKeyCode::Comma) <==> text && c == ',' && !numpad
            &&& code == Some(VirtualKeyCode::NumpadComma) <==> text && c == ',' && numpad
            &&& code == Some(VirtualKeyCode::Period) <==> text && c == '.' && !numpad
            &&& code == Some(VirtualKeyCode::NumpadDecimal) <==> text && c == '.' && numpad
            &&& code == Some(VirtualKeyCode::Equals) <==> text && c == '=' && !numpad
            &&& code == Some(VirtualKeyCode::NumpadEquals) <==> text && c == '=' && numpad
            &&& code == Some(VirtualKeyCode::Caret) <==> text && c == '^'
            &&& code == Some(VirtualKeyCode::Apostrophe) <==> text && c == '\''
            &&& code == Some(VirtualKeyCode::Backslash) <==> text && c == '\\'
            &&& code == Some(VirtualKeyCode::Colon) <==> text && c == ':'
            &&& code == Some(VirtualKeyCode::Grave) <==> text && c == '`'
            &&& code == Some(VirtualKeyCode::LBracket) <==> text && c == '('
            &&& code == Some(VirtualKeyCode::RBracket) <==> text && c == ')'
        }),
{
}

/// A handler is told of the other keys without a code: those that have no meaning,
/// dead keys, and keys that stand for no text.
pub proof fn law_keys_without_code(text: String, location: KeyLocation)
    ensures
        key_code(Key::Unidentified, location) is None,
        key_code(Key::Dead, location) is None,
        key_code(Key::Named(NamedKey::Other), location) is None,
        text@.len() == 0 ==> key_code(Key::Character(text), location) is None,
{
}

} // verus!
