use windowing::events::{key_callbacks, Callback, ElementState};
use windowing::keyboard::{Key, KeyEvent, KeyLocation, NamedKey, VirtualKeyCode};
use winit::keyboard::{KeyCode, PhysicalKey};

const LOCATIONS: [KeyLocation; 4] = [
    KeyLocation::Standard,
    KeyLocation::Left,
    KeyLocation::Right,
    KeyLocation::Numpad,
];

fn event(logical_key: Key, location: KeyLocation) -> KeyEvent {
    KeyEvent {
        logical_key,
        location,
        state: ElementState::Pressed,
        text: None,
        repeat: false,
        scancode: Some(30),
    }
}

fn code_of(logical_key: Key, location: KeyLocation) -> Option<VirtualKeyCode> {
    VirtualKeyCode::try_from(&event(logical_key, location)).ok()
}

fn character(text: &str, location: KeyLocation) -> Option<VirtualKeyCode> {
    code_of(Key::Character(text.to_string()), location)
}

fn named(key: NamedKey, location: KeyLocation) -> Option<VirtualKeyCode> {
    code_of(Key::Named(key), location)
}

fn calls(event: &KeyEvent) -> String {
    let calls: Vec<Callback<(), (), ()>> = key_callbacks(event);
    format!("{:?}", calls)
}

#[test]
fn letters_have_codes_in_both_cases() {
    let codes = [
        ('a', VirtualKeyCode::A),
        ('b', VirtualKeyCode::B),
        ('c', VirtualKeyCode::C),
        ('d', VirtualKeyCode::D),
        ('e', VirtualKeyCode::E),
        ('f', VirtualKeyCode::F),
        ('g', VirtualKeyCode::G),
        ('h', VirtualKeyCode::H),
        ('i', VirtualKeyCode::I),
        ('j', VirtualKeyCode::J),
        ('k', VirtualKeyCode::K),
        ('l', VirtualKeyCode::L),
        ('m', VirtualKeyCode::M),
        ('n', VirtualKeyCode::N),
        ('o', VirtualKeyCode::O),
        ('p', VirtualKeyCode::P),
        ('q', VirtualKeyCode::Q),
        ('r', VirtualKeyCode::R),
        ('s', VirtualKeyCode::S),
        ('t', VirtualKeyCode::T),
        ('u', VirtualKeyCode::U),
        ('v', VirtualKeyCode::V),
        ('w', VirtualKeyCode::W),
        ('x', VirtualKeyCode::X),
        ('y', VirtualKeyCode::Y),
        ('z', VirtualKeyCode::Z),
    ];
    for (letter, code) in codes {
        for location in LOCATIONS {
            assert_eq!(character(&letter.to_string(), location), Some(code));
            let upper = letter.to_ascii_uppercase().to_string();
            assert_eq!(character(&upper, location), Some(code));
        }
    }
}

#[test]
fn digits_and_signs_differ_on_the_number_pad() {
    let codes = [
        ("0", VirtualKeyCode::Key0, VirtualKeyCode::Numpad0),
        ("1", VirtualKeyCode::Key1, VirtualKeyCode::Numpad1),
        ("2", VirtualKeyCode::Key2, VirtualKeyCode::Numpad2),
        ("3", VirtualKeyCode::Key3, VirtualKeyCode::Numpad3),
        ("4", VirtualKeyCode::Key4, VirtualKeyCode::Numpad4),
        ("5", VirtualKeyCode::Key5, VirtualKeyCode::Numpad5),
        ("6", VirtualKeyCode::Key6, VirtualKeyCode::Numpad6),
        ("7", VirtualKeyCode::Key7, VirtualKeyCode::Numpad7),
        ("8", VirtualKeyCode::Key8, VirtualKeyCode::Numpad8),
        ("9", VirtualKeyCode::Key9, VirtualKeyCode::Numpad9),
        ("+", VirtualKeyCode::Plus, VirtualKeyCode::NumpadAdd),
        ("-", VirtualKeyCode::Minus, VirtualKeyCode::NumpadSubtract),
        ("*", VirtualKeyCode::Asterisk, VirtualKeyCode::NumpadMultiply),
        ("/", VirtualKeyCode::Slash, VirtualKeyCode::NumpadDivide),
        (",", VirtualKeyCode::Comma, VirtualKeyCode::NumpadComma),
        (".", VirtualKeyCode::Period, VirtualKeyCode::NumpadDecimal),
        ("=", VirtualKeyCode::Equals, VirtualKeyCode::NumpadEquals),
    ];
    for (text, code, numpad_code) in codes {
        assert_eq!(character(text, KeyLocation::Standard), Some(code));
        assert_eq!(character(text, KeyLocation::Left), Some(code));
        assert_eq!(character(text, KeyLocation::Right), Some(code));
        assert_eq!(character(text, KeyLocation::Numpad), Some(numpad_code));
    }
}

#[test]
fn other_signs_have_one_code() {
    let codes = [
        ("^", VirtualKeyCode::Caret),
        ("'", VirtualKeyCode::Apostrophe),
        ("\\", VirtualKeyCode::Backslash),
        (":", VirtualKeyCode::Colon),
        ("`", VirtualKeyCode::Grave),
        ("(", VirtualKeyCode::LBracket),
        (")", VirtualKeyCode::RBracket),
        ("\t", VirtualKeyCode::Tab),
    ];
    for (text, code) in codes {
        for location in LOCATIONS {
            assert_eq!(character(text, location), Some(code));
        }
    }
}

#[test]
fn first_character_of_a_text_counts() {
    assert_eq!(character("abc", KeyLocation::Standard), Some(VirtualKeyCode::A));
    assert_eq!(character("éa", KeyLocation::Standard), None);
}

#[test]
fn keys_without_a_code() {
    for location in LOCATIONS {
        assert_eq!(character("", location), None);
        assert_eq!(character("é", location), None);
        assert_eq!(character("\0", location), None);
        assert_eq!(named(NamedKey::Other, location), None);
        assert_eq!(code_of(Key::Unidentified, location), None);
        assert_eq!(code_of(Key::Dead, location), None);
    }
}

#[test]
fn keys_on_both_sides() {
    let codes = [
        (NamedKey::Alt, VirtualKeyCode::LAlt, VirtualKeyCode::RAlt),
        (NamedKey::Control, VirtualKeyCode::LControl, VirtualKeyCode::RControl),
        (NamedKey::Shift, VirtualKeyCode::LShift, VirtualKeyCode::RShift),
        (NamedKey::Super, VirtualKeyCode::LWin, VirtualKeyCode::RWin),
    ];
    for (key, left, right) in codes {
        assert_eq!(named(key, KeyLocation::Standard), Some(left));
        assert_eq!(named(key, KeyLocation::Left), Some(left));
        assert_eq!(named(key, KeyLocation::Right), Some(right));
        assert_eq!(named(key, KeyLocation::Numpad), Some(right));
    }
}

#[test]
fn enter_differs_on_the_number_pad() {
    let enter = NamedKey::Enter;
    assert_eq!(named(enter, KeyLocation::Standard), Some(VirtualKeyCode::Return));
    assert_eq!(named(enter, KeyLocation::Right), Some(VirtualKeyCode::Return));
    assert_eq!(named(enter, KeyLocation::Numpad), Some(VirtualKeyCode::NumpadEnter));
}

#[test]
fn named_keys_with_one_code() {
    let codes = [
        (NamedKey::AltGraph, VirtualKeyCode::RAlt),
        (NamedKey::ArrowDown, VirtualKeyCode::Down),
        (NamedKey::ArrowLeft, VirtualKeyCode::Left),
        (NamedKey::ArrowRight, VirtualKeyCode::Right),
        (NamedKey::ArrowUp, VirtualKeyCode::Up),
        (NamedKey::AudioVolumeDown, VirtualKeyCode::VolumeDown),
        (NamedKey::AudioVolumeMute, VirtualKeyCode::Mute),
        (NamedKey::AudioVolumeUp, VirtualKeyCode::VolumeUp),
        (NamedKey::Backspace, VirtualKeyCode::Backspace),
        (NamedKey::BrowserBack, VirtualKeyCode::WebBack),
        (NamedKey::BrowserFavorites, VirtualKeyCode::WebFavorites),
        (NamedKey::BrowserForward, VirtualKeyCode::WebForward),
        (NamedKey::BrowserHome, VirtualKeyCode::WebHome),
        (NamedKey::BrowserRefresh, VirtualKeyCode::WebRefresh),
        (NamedKey::BrowserSearch, VirtualKeyCode::WebSearch),
        (NamedKey::BrowserStop, VirtualKeyCode::WebStop),
        (NamedKey::Compose, VirtualKeyCode::Compose),
        (NamedKey::Convert, VirtualKeyCode::Convert),
        (NamedKey::Copy, VirtualKeyCode::Copy),
        (NamedKey::Cut, VirtualKeyCode::Cut),
        (NamedKey::Delete, VirtualKeyCode::Delete),
        (NamedKey::End, VirtualKeyCode::End),
        (NamedKey::Escape, VirtualKeyCode::Escape),
        (NamedKey::F1, VirtualKeyCode::F1),
        (NamedKey::F12, VirtualKeyCode::F12),
        (NamedKey::F24, VirtualKeyCode::F24),
        (NamedKey::GoBack, VirtualKeyCode::NavigateBackward),
        (NamedKey::GoHome, VirtualKeyCode::Home),
        (NamedKey::Home, VirtualKeyCode::Home),
        (NamedKey::Insert, VirtualKeyCode::Insert),
        (NamedKey::KanaMode, VirtualKeyCode::Kana),
        (NamedKey::KanjiMode, VirtualKeyCode::Kanji),
        (NamedKey::LaunchMail, VirtualKeyCode::Mail),
        (NamedKey::MediaPlayPause, VirtualKeyCode::PlayPause),
        (NamedKey::MediaStop, VirtualKeyCode::MediaStop),
        (NamedKey::NavigatePrevious, VirtualKeyCode::NavigateBackward),
        (NamedKey::NonConvert, VirtualKeyCode::NoConvert),
        (NamedKey::NumLock, VirtualKeyCode::Numlock),
        (NamedKey::PageDown, VirtualKeyCode::PageDown),
        (NamedKey::PageUp, VirtualKeyCode::PageUp),
        (NamedKey::Paste, VirtualKeyCode::Paste),
        (NamedKey::Power, VirtualKeyCode::Power),
        (NamedKey::PrintScreen, VirtualKeyCode::PrintScreen),
        (NamedKey::ScrollLock, VirtualKeyCode::ScrollLock),
        (NamedKey::Tab, VirtualKeyCode::Tab),
    ];
    for (key, code) in codes {
        for location in LOCATIONS {
            assert_eq!(named(key, location), Some(code));
        }
    }
}

#[test]
fn first_press_types_and_reports_the_key() {
    let press = KeyEvent {
        text: Some("ab".to_string()),
        ..event(Key::Character("a".to_string()), KeyLocation::Standard)
    };
    assert_eq!(
        calls(&press),
        "[KeyboardChar('a'), KeyboardChar('b'), \
         KeyDown { virtual_key_code: Some(A), scancode: 30 }]"
    );
}

#[test]
fn repeated_press_only_types() {
    let press = KeyEvent {
        text: Some("a".to_string()),
        repeat: true,
        ..event(Key::Character("a".to_string()), KeyLocation::Standard)
    };
    assert_eq!(calls(&press), "[KeyboardChar('a')]");
    let press = KeyEvent {
        text: None,
        ..press
    };
    assert_eq!(calls(&press), "[]");
}

#[test]
fn release_types_nothing() {
    let release = KeyEvent {
        state: ElementState::Released,
        text: Some("a".to_string()),
        repeat: true,
        ..event(Key::Character("a".to_string()), KeyLocation::Standard)
    };
    assert_eq!(
        calls(&release),
        "[KeyUp { virtual_key_code: Some(A), scancode: 30 }]"
    );
}

#[test]
fn key_without_code_or_number_is_still_reported() {
    let press = KeyEvent {
        scancode: None,
        ..event(Key::Unidentified, KeyLocation::Standard)
    };
    assert_eq!(press.handler_scancode(), 0);
    assert_eq!(
        calls(&press),
        "[KeyDown { virtual_key_code: None, scancode: 0 }]"
    );
}

#[test]
fn key_event_asks_the_window_system_for_the_number() {
    let press = |physical_key: PhysicalKey| {
        KeyEvent::new(
            Key::Character("q".to_string()),
            KeyLocation::Standard,
            ElementState::Pressed,
            Some("q".to_string()),
            true,
            physical_key,
        )
    };
    // The numbers that Linux gives to these keys.
    assert_eq!(press(PhysicalKey::Code(KeyCode::KeyA)).scancode, Some(30));
    assert_eq!(press(PhysicalKey::Code(KeyCode::Escape)).scancode, Some(1));
    let press = press(PhysicalKey::Code(KeyCode::KeyA));
    assert_eq!(press.handler_scancode(), 30);
    assert!(press.repeat);
    assert_eq!(press.state, ElementState::Pressed);
    assert_eq!(press.location, KeyLocation::Standard);
    assert_eq!(press.text.as_deref(), Some("q"));
    assert!(matches!(press.logical_key, Key::Character(text) if text == "q"));
}
