//! Keyboard and cursor state of the web input backend: how browser key
//! names map onto key codes, characters and Windows-1252 bytes, and which
//! keys are held down.

use vstd::prelude::*;
use vstd::string::*;

verus! {

/// A key, as the player sees it.
#[derive(Clone, Copy, Debug, PartialEq, Eq, Structural)]
pub enum KeyCode {
    Unknown,
    Backspace,
    Return,
    Shift,
    Control,
    Alt,
    CapsLock,
    Escape,
    Space,
    Key0,
    Key1,
    Key2,
    Key3,
    Key4,
    Key5,
    Key6,
    Key7,
    Key8,
    Key9,
    A,
    B,
    C,
    D,
    E,
    F,
    G,
    H,
    I,
    J,
    K,
    L,
    M,
    N,
    O,
    P,
    Q,
    R,
    S,
    T,
    U,
    V,
    W,
    X,
    Y,
    Z,
    Semicolon,
    Equals,
    Comma,
    Minus,
    Period,
    Slash,
    Grave,
    LBracket,
    Backslash,
    RBracket,
    Apostrophe,
    Numpad0,
    Numpad1,
    Numpad2,
    Numpad3,
    Numpad4,
    Numpad5,
    Numpad6,
    Numpad7,
    Numpad8,
    Numpad9,
    Multiply,
    Plus,
    NumpadMinus,
    NumpadPeriod,
    NumpadSlash,
    PgUp,
    PgDown,
    End,
    Home,
    Left,
    Up,
    Right,
    Down,
    Insert,
    Delete,
    Pause,
    ScrollLock,
    F1,
    F2,
    F3,
    F4,
    F5,
    F6,
    F7,
    F8,
    F9,
    F10,
    F11,
    F12,
}

/// The shape of the mouse cursor.
#[derive(Clone, Copy, Debug, PartialEq, Eq, Structural)]
pub enum MouseCursor {
    Arrow,
    Hand,
    IBeam,
    Grab,
}

/// Whether two strings hold the same characters.
pub fn str_eq(a: &str, b: &str) -> (r: bool)
    ensures
        r == (a@ == b@),
{
    let n = a.unicode_len();
    if n != b.unicode_len() {
        return false;
    }
    let mut i: usize = 0;
    while i < n
        invariant
            n == a@.len(),
            n == b@.len(),
            i <= n,
            forall|k: int| 0 <= k < i ==> a@[k] == b@[k],
        decreases n - i,
    {
        if a.get_char(i) != b.get_char(i) {
            return false;
        }
        i = i + 1;
    }
    assert(a@ =~= b@);
    true
}

/// The key that a `KeyboardEvent.code` value names, if any.
pub open spec fn key_code_of(code: Seq<char>) -> Option<KeyCode> {
    if code == "Backspace"@ {
        Some(KeyCode::Backspace)
    } else if code == "Enter"@ {
        Some(KeyCode::Return)
    } else if code == "ShiftLeft"@ || code == "ShiftRight"@ {
        Some(KeyCode::Shift)
    } else if code == "ControlLeft"@ || code == "ControlRight"@ {
        Some(KeyCode::Control)
    } else if code == "AltLeft"@ || code == "AltRight"@ {
        Some(KeyCode::Alt)
    } else if code == "CapsLock"@ {
        Some(KeyCode::CapsLock)
    } else if code == "Escape"@ {
        Some(KeyCode::Escape)
    } else if code == "Space"@ {
        Some(KeyCode::Space)
    } else if code == "Digit0"@ {
        Some(KeyCode::Key0)
    } else if code == "Digit1"@ {
        Some(KeyCode::Key1)
    } else if code == "Digit2"@ {
        Some(KeyCode::Key2)
    } else if code == "Digit3"@ {
        Some(KeyCode::Key3)
    } else if code == "Digit4"@ {
        Some(KeyCode::Key4)
    } else if code == "Digit5"@ {
        Some(KeyCode::Key5)
    } else if code == "Digit6"@ {
        Some(KeyCode::Key6)
    } else if code == "Digit7"@ {
        Some(KeyCode::Key7)
    } else if code == "Digit8"@ {
        Some(KeyCode::Key8)
    } else if code == "Digit9"@ {
        Some(KeyCode::Key9)
    } else if code == "KeyA"@ {
        Some(KeyCode::A)
    } else if code == "KeyB"@ {
        Some(KeyCode::B)
    } else if code == "KeyC"@ {
        Some(KeyCode::C)
    } else if code == "KeyD"@ {
        Some(KeyCode::D)
    } else if code == "KeyE"@ {
        Some(KeyCode::E)
    } else if code == "KeyF"@ {
        Some(KeyCode::F)
    } else if code == "KeyG"@ {
        Some(KeyCode::G)
    } else if code == "KeyH"@ {
        Some(KeyCode::H)
    } else if code == "KeyI"@ {
        Some(KeyCode::I)
    } else if code == "KeyJ"@ {
        Some(KeyCode::J)
    } else if code == "KeyK"@ {
        Some(KeyCode::K)
    } else if code == "KeyL"@ {
        Some(KeyCode::L)
    } else if code == "KeyM"@ {
        Some(KeyCode::M)
    } else if code == "KeyN"@ {
        Some(KeyCode::N)
    } else if code == "KeyO"@ {
        Some(KeyCode::O)
    } else if code == "KeyP"@ {
        Some(KeyCode::P)
    } else if code == "KeyQ"@ {
        Some(KeyCode::Q)
    } else if code == "KeyR"@ {
        Some(KeyCode::R)
    } else if code == "KeyS"@ {
        Some(KeyCode::S)
    } else if code == "KeyT"@ {
        Some(KeyCode::T)
    } else if code == "KeyU"@ {
        Some(KeyCode::U)
    } else if code == "KeyV"@ {
        Some(KeyCode::V)
    } else if code == "KeyW"@ {
        Some(KeyCode::W)
    } else if code == "KeyX"@ {
        Some(KeyCode::X)
    } else if code == "KeyY"@ {
        Some(KeyCode::Y)
    } else if code == "KeyZ"@ {
        Some(KeyCode::Z)
    } else if code == "Semicolon"@ {
        Some(KeyCode::Semicolon)
    } else if code == "Equal"@ {
        Some(KeyCode::Equals)
    } else if code == "Comma"@ {
        Some(KeyCode::Comma)
    } else if code == "Minus"@ {
        Some(KeyCode::Minus)
    } else if code == "Period"@ {
        Some(KeyCode::Period)
    } else if code == "Slash"@ {
        Some(KeyCode::Slash)
    } else if code == "Backquote"@ {
        Some(KeyCode::Grave)
    } else if code == "BracketLeft"@ {
        Some(KeyCode::LBracket)
    } else if code == "Backslash"@ {
        Some(KeyCode::Backslash)
    } else if code == "BracketRight"@ {
        Some(KeyCode::RBracket)
    } else if code == "Quote"@ {
        Some(KeyCode::Apostrophe)
    } else if code == "Numpad0"@ {
        Some(KeyCode::Numpad0)
    } else if code == "Numpad1"@ {
        Some(KeyCode::Numpad1)
    } else if code == "Numpad2"@ {
        Some(KeyCode::Numpad2)
    } else if code == "Numpad3"@ {
        Some(KeyCode::Numpad3)
    } else if code == "Numpad4"@ {
        Some(KeyCode::Numpad4)
    } else if code == "Numpad5"@ {
        Some(KeyCode::Numpad5)
    } else if code == "Numpad6"@ {
        Some(KeyCode::Numpad6)
    } else if code == "Numpad7"@ {
        Some(KeyCode::Numpad7)
    } else if code == "Numpad8"@ {
        Some(KeyCode::Numpad8)
    } else if code == "Numpad9"@ {
        Some(KeyCode::Numpad9)
    } else if code == "NumpadMultiply"@ {
        Some(KeyCode::Multiply)
    } else if code == "NumpadAdd"@ {
        Some(KeyCode::Plus)
    } else if code == "NumpadSubtract"@ {
        Some(KeyCode::NumpadMinus)
    } else if code == "NumpadDecimal"@ {
        Some(KeyCode::NumpadPeriod)
    } else if code == "NumpadDivide"@ {
        Some(KeyCode::NumpadSlash)
    } else if code == "PageUp"@ {
        Some(KeyCode::PgUp)
    } else if code == "PageDown"@ {
        Some(KeyCode::PgDown)
    } else if code == "End"@ {
        Some(KeyCode::End)
    } else if code == "Home"@ {
        Some(KeyCode::Home)
    } else if code == "ArrowLeft"@ {
        Some(KeyCode::Left)
    } else if code == "ArrowUp"@ {
        Some(KeyCode::Up)
    } else if code == "ArrowRight"@ {
        Some(KeyCode::Right)
    } else if code == "ArrowDown"@ {
        Some(KeyCode::Down)
    } else if code == "Insert"@ {
        Some(KeyCode::Insert)
    } else if code == "Delete"@ {
        Some(KeyCode::Delete)
    } else if code == "Pause"@ {
        Some(KeyCode::Pause)
    } else if code == "ScrollLock"@ {
        Some(KeyCode::ScrollLock)
    } else if code == "F1"@ {
        Some(KeyCode::F1)
    } else if code == "F2"@ {
        Some(KeyCode::F2)
    } else if code == "F3"@ {
        Some(KeyCode::F3)
    } else if code == "F4"@ {
        Some(KeyCode::F4)
    } else if code == "F5"@ {
        Some(KeyCode::F5)
    } else if code == "F6"@ {
        Some(KeyCode::F6)
    } else if code == "F7"@ {
        Some(KeyCode::F7)
    } else if code == "F8"@ {
        Some(KeyCode::F8)
    } else if code == "F9"@ {
        Some(KeyCode::F9)
    } else if code == "F10"@ {
        Some(KeyCode::F10)
    } else if code == "F11"@ {
        Some(KeyCode::F11)
    } else if code == "F12"@ {
        Some(KeyCode::F12)
    } else {
        None
    }
}

/// Converts a `KeyboardEvent.code` value into a key code; `None` where no
/// key matches.
pub fn web_to_ruffle_key_code(key_code: &str) -> (r: Option<KeyCode>)
    ensures
        r == key_code_of(key_code@),
{
    if str_eq(key_code, "Backspace") {
        Some(KeyCode::Backspace)
    } else if str_eq(key_code, "Enter") {
        Some(KeyCode::Return)
    } else if str_eq(key_code, "ShiftLeft") || str_eq(key_code, "ShiftRight") {
        Some(KeyCode::Shift)
    } else if str_eq(key_code, "ControlLeft") || str_eq(key_code, "ControlRight") {
        Some(KeyCode::Control)
    } else if str_eq(key_code, "AltLeft") || str_eq(key_code, "AltRight") {
        Some(KeyCode::Alt)
    } else if str_eq(key_code, "CapsLock") {
        Some(KeyCode::CapsLock)
    } else if str_eq(key_code, "Escape") {
        Some(KeyCode::Escape)
    } else if str_eq(key_code, "Space") {
        Some(KeyCode::Space)
    } else if str_eq(key_code, "Digit0") {
        Some(KeyCode::Key0)
    } else if str_eq(key_code, "Digit1") {
        Some(KeyCode::Key1)
    } else if str_eq(key_code, "Digit2") {
        Some(KeyCode::Key2)
    } else if str_eq(key_code, "Digit3") {
        Some(KeyCode::Key3)
    } else if str_eq(key_code, "Digit4") {
        Some(KeyCode::Key4)
    } else if str_eq(key_code, "Digit5") {
        Some(KeyCode::Key5)
    } else if str_eq(key_code, "Digit6") {
        Some(KeyCode::Key6)
    } else if str_eq(key_code, "Digit7") {
        Some(KeyCode::Key7)
    } else if str_eq(key_code, "Digit8") {
        Some(KeyCode::Key8)
    } else if str_eq(key_code, "Digit9") {
        Some(KeyCode::Key9)
    } else if str_eq(key_code, "KeyA") {
        Some(KeyCode::A)
    } else if str_eq(key_code, "KeyB") {
        Some(KeyCode::B)
    } else if str_eq(key_code, "KeyC") {
        Some(KeyCode::C)
    } else if str_eq(key_code, "KeyD") {
        Some(KeyCode::D)
    } else if str_eq(key_code, "KeyE") {
        Some(KeyCode::E)
    } else if str_eq(key_code, "KeyF") {
        Some(KeyCode::F)
    } else if str_eq(key_code, "KeyG") {
        Some(KeyCode::G)
    } else if str_eq(key_code, "KeyH") {
        Some(KeyCode::H)
    } else if str_eq(key_code, "KeyI") {
        Some(KeyCode::I)
    } else if str_eq(key_code, "KeyJ") {
        Some(KeyCode::J)
    } else if str_eq(key_code, "KeyK") {
        Some(KeyCode::K)
    } else if str_eq(key_code, "KeyL") {
        Some(KeyCode::L)
    } else if str_eq(key_code, "KeyM") {
        Some(KeyCode::M)
    } else if str_eq(key_code, "KeyN") {
        Some(KeyCode::N)
    } else if str_eq(key_code, "KeyO") {
        Some(KeyCode::O)
    } else if str_eq(key_code, "KeyP") {
        Some(KeyCode::P)
    } else if str_eq(key_code, "KeyQ") {
        Some(KeyCode::Q)
    } else if str_eq(key_code, "KeyR") {
        Some(KeyCode::R)
    } else if str_eq(key_code, "KeyS") {
        Some(KeyCode::S)
    } else if str_eq(key_code, "KeyT") {
        Some(KeyCode::T)
    } else if str_eq(key_code, "KeyU") {
        Some(KeyCode::U)
    } else if str_eq(key_code, "KeyV") {
        Some(KeyCode::V)
    } else if str_eq(key_code, "KeyW") {
        Some(KeyCode::W)
    } else if str_eq(key_code, "KeyX") {
        Some(KeyCode::X)
    } else if str_eq(key_code, "KeyY") {
        Some(KeyCode::Y)
    } else if str_eq(key_code, "KeyZ") {
        Some(KeyCode::Z)
    } else if str_eq(key_code, "Semicolon") {
        Some(KeyCode::Semicolon)
    } else if str_eq(key_code, "Equal") {
        Some(KeyCode::Equals)
    } else if str_eq(key_code, "Comma") {
        Some(KeyCode::Comma)
    } else if str_eq(key_code, "Minus") {
        Some(KeyCode::Minus)
    } else if str_eq(key_code, "Period") {
        Some(KeyCode::Period)
    } else if str_eq(key_code, "Slash") {
        Some(KeyCode::Slash)
    } else if str_eq(key_code, "Backquote") {
        Some(KeyCode::Grave)
    } else if str_eq(key_code, "BracketLeft") {
        Some(KeyCode::LBracket)
    } else if str_eq(key_code, "Backslash") {
        Some(KeyCode::Backslash)
    } else if str_eq(key_code, "BracketRight") {
        Some(KeyCode::RBracket)
    } else if str_eq(key_code, "Quote") {
        Some(KeyCode::Apostrophe)
    } else if str_eq(key_code, "Numpad0") {
        Some(KeyCode::Numpad0)
    } else if str_eq(key_code, "Numpad1") {
        Some(KeyCode::Numpad1)
    } else if str_eq(key_code, "Numpad2") {
        Some(KeyCode::Numpad2)
    } else if str_eq(key_code, "Numpad3") {
        Some(KeyCode::Numpad3)
    } else if str_eq(key_code, "Numpad4") {
        Some(KeyCode::Numpad4)
    } else if str_eq(key_code, "Numpad5") {
        Some(KeyCode::Numpad5)
    } else if str_eq(key_code, "Numpad6") {
        Some(KeyCode::Numpad6)
    } else if str_eq(key_code, "Numpad7") {
        Some(KeyCode::Numpad7)
    } else if str_eq(key_code, "Numpad8") {
        Some(KeyCode::Numpad8)
    } else if str_eq(key_code, "Numpad9") {
        Some(KeyCode::Numpad9)
    } else if str_eq(key_code, "NumpadMultiply") {
        Some(KeyCode::Multiply)
    } else if str_eq(key_code, "NumpadAdd") {
        Some(KeyCode::Plus)
    } else if str_eq(key_code, "NumpadSubtract") {
        Some(KeyCode::NumpadMinus)
    } else if str_eq(key_code, "NumpadDecimal") {
        Some(KeyCode::NumpadPeriod)
    } else if str_eq(key_code, "NumpadDivide") {
        Some(KeyCode::NumpadSlash)
    } else if str_eq(key_code, "PageUp") {
        Some(KeyCode::PgUp)
    } else if str_eq(key_code, "PageDown") {
        Some(KeyCode::PgDown)
    } else if str_eq(key_code, "End") {
        Some(KeyCode::End)
    } else if str_eq(key_code, "Home") {
        Some(KeyCode::Home)
    } else if str_eq(key_code, "ArrowLeft") {
        Some(KeyCode::Left)
    } else if str_eq(key_code, "ArrowUp") {
        Some(KeyCode::Up)
    } else if str_eq(key_code, "ArrowRight") {
        Some(KeyCode::Right)
    } else if str_eq(key_code, "ArrowDown") {
        Some(KeyCode::Down)
    } else if str_eq(key_code, "Insert") {
        Some(KeyCode::Insert)
    } else if str_eq(key_code, "Delete") {
        Some(KeyCode::Delete)
    } else if str_eq(key_code, "Pause") {
        Some(KeyCode::Pause)
    } else if str_eq(key_code, "ScrollLock") {
        Some(KeyCode::ScrollLock)
    } else if str_eq(key_code, "F1") {
        Some(KeyCode::F1)
    } else if str_eq(key_code, "F2") {
        Some(KeyCode::F2)
    } else if str_eq(key_code, "F3") {
        Some(KeyCode::F3)
    } else if str_eq(key_code, "F4") {
        Some(KeyCode::F4)
    } else if str_eq(key_code, "F5") {
        Some(KeyCode::F5)
    } else if str_eq(key_code, "F6") {
        Some(KeyCode::F6)
    } else if str_eq(key_code, "F7") {
        Some(KeyCode::F7)
    } else if str_eq(key_code, "F8") {
        Some(KeyCode::F8)
    } else if str_eq(key_code, "F9") {
        Some(KeyCode::F9)
    } else if str_eq(key_code, "F10") {
        Some(KeyCode::F10)
    } else if str_eq(key_code, "F11") {
        Some(KeyCode::F11)
    } else if str_eq(key_code, "F12") {
        Some(KeyCode::F12)
    } else {
        None
    }
}

/// The character that a `KeyboardEvent.key` value stands for: the value
/// itself when it is one character long, a control character for the two
/// editing keys, and nothing for the other named keys.
pub open spec fn codepoint_of(key: Seq<char>) -> Option<char> {
    if key.len() == 0 {
        None
    } else if key.len() == 1 {
        Some(key[0])
    } else if key == "Backspace"@ {
        Some('\u{8}')
    } else if key == "Delete"@ {
        Some('\u{7f}')
    } else {
        None
    }
}

/// Converts a `KeyboardEvent.key` value into a character; `None` where the
/// key is not a printable character.
pub fn web_key_to_codepoint(key: &str) -> (r: Option<char>)
    ensures
        r == codepoint_of(key@),
{
    let n = key.unicode_len();
    if n <= 1 {
        if n == 1 {
            Some(key.get_char(0))
        } else {
            None
        }
    } else if str_eq(key, "Backspace") {
        Some('\u{8}')
    } else if str_eq(key, "Delete") {
        Some('\u{7f}')
    } else {
        None
    }
}

/// The Windows-1252 byte of a `KeyboardEvent.key` value; `?` for a value
/// with no such byte.
pub open spec fn ascii_of(key: Seq<char>) -> u8 {
    if key == "Backspace"@ {
        8
    } else if key == "Tab"@ {
        9
    } else if key == "Escape"@ {
        27
    } else if key == "!"@ {
        33
    } else if key == "\""@ {
        34
    } else if key == "#"@ {
        35
    } else if key == "$"@ {
        36
    } else if key == "%"@ {
        37
    } else if key == "&"@ {
        38
    } else if key == "'"@ {
        39
    } else if key == "("@ {
        40
    } else if key == ")"@ {
        41
    } else if key == "*"@ {
        42
    } else if key == "+"@ {
        43
    } else if key == ","@ {
        44
    } else if key == "-"@ {
        45
    } else if key == "."@ {
        46
    } else if key == "/"@ {
        47
    } else if key == "0"@ {
        48
    } else if key == "1"@ {
        49
    } else if key == "2"@ {
        50
    } else if key == "3"@ {
        51
    } else if key == "4"@ {
        52
    } else if key == "5"@ {
        53
    } else if key == "6"@ {
        54
    } else if key == "7"@ {
        55
    } else if key == "8"@ {
        56
    } else if key == "9"@ {
        57
    } else if key == ":"@ {
        58
    } else if key == ";"@ {
        59
    } else if key == "<"@ {
        60
    } else if key == "="@ {
        61
    } else if key == ">"@ {
        62
    } else if key == "?"@ {
        63
    } else if key == "@"@ {
        64
    } else if key == "A"@ {
        65
    } else if key == "B"@ {
        66
    } else if key == "C"@ {
        67
    } else if key == "D"@ {
        68
    } else if key == "E"@ {
        69
    } else if key == "F"@ {
        70
    } else if key == "G"@ {
        71
    } else if key == "H"@ {
        72
    } else if key == "I"@ {
        73
    } else if key == "J"@ {
        74
    } else if key == "K"@ {
        75
    } else if key == "L"@ {
        76
    } else if key == "M"@ {
        77
    } else if key == "N"@ {
        78
    } else if key == "O"@ {
        79
    } else if key == "P"@ {
        80
    } else if key == "Q"@ {
        81
    } else if key == "R"@ {
        82
    } else if key == "S"@ {
        83
    } else if key == "T"@ {
        84
    } else if key == "U"@ {
        85
    } else if key == "V"@ {
        86
    } else if key == "W"@ {
        87
    } else if key == "X"@ {
        88
    } else if key == "Y"@ {
        89
    } else if key == "Z"@ {
        90
    } else if key == "["@ {
        91
    } else if key == "\\"@ {
        92
    } else if key == "]"@ {
        93
    } else if key == "^"@ {
        94
    } else if key == "_"@ {
        95
    } else if key == "`"@ {
        96
    } else if key == "a"@ {
        97
    } else if key == "b"@ {
        98
    } else if key == "c"@ {
        99
    } else if key == "d"@ {
        100
    } else if key == "e"@ {
        101
    } else if key == "f"@ {
        102
    } else if key == "g"@ {
        103
    } else if key == "h"@ {
        104
    } else if key == "i"@ {
        105
    } else if key == "j"@ {
        106
    } else if key == "k"@ {
        107
    } else if key == "l"@ {
        108
    } else if key == "m"@ {
        109
    } else if key == "n"@ {
        110
    } else if key == "o"@ {
        111
    } else if key == "p"@ {
        112
    } else if key == "q"@ {
        113
    } else if key == "r"@ {
        114
    } else if key == "s"@ {
        115
    } else if key == "t"@ {
        116
    } else if key == "u"@ {
        117
    } else if key == "v"@ {
        118
    } else if key == "w"@ {
        119
    } else if key == "x"@ {
        120
    } else if key == "y"@ {
        121
    } else if key == "z"@ {
        122
    } else if key == "{"@ {
        123
    } else if key == "|"@ {
        124
    } else if key == "}"@ {
        125
    } else if key == "~"@ {
        126
    } else if key == "Delete"@ {
        127
    } else if key == "€"@ {
        128
    } else if key == "‚"@ {
        130
    } else if key == "ƒ"@ {
        131
    } else if key == "„"@ {
        132
    } else if key == "…"@ {
        133
    } else if key == "†"@ {
        134
    } else if key == "‡"@ {
        135
    } else if key == "ˆ"@ {
        136
    } else if key == "‰"@ {
        137
    } else if key == "Š"@ {
        138
    } else if key == "‹"@ {
        139
    } else if key == "Œ"@ {
        140
    } else if key == "Ž"@ {
        142
    } else if key == "‘"@ {
        145
    } else if key == "’"@ {
        146
    } else if key == "“"@ {
        147
    } else if key == "”"@ {
        148
    } else if key == "•"@ {
        149
    } else if key == "–"@ {
        150
    } else if key == "—"@ {
        151
    } else if key == "˜"@ {
        152
    } else if key == "™"@ {
        153
    } else if key == "š"@ {
        154
    } else if key == "›"@ {
        155
    } else if key == "œ"@ {
        156
    } else if key == "ž"@ {
        158
    } else if key == "Ÿ"@ {
        159
    } else if key == "¡"@ {
        161
    } else if key == "¢"@ {
        162
    } else if key == "£"@ {
        163
    } else if key == "¤"@ {
        164
    } else if key == "¥"@ {
        165
    } else if key == "¦"@ {
        166
    } else if key == "§"@ {
        167
    } else if key == "¨"@ {
        168
    } else if key == "©"@ {
        169
    } else if key == "ª"@ {
        170
    } else if key == "«"@ {
        171
    } else if key == "¬"@ {
        172
    } else if key == "®"@ {
        174
    } else if key == "¯"@ {
        175
    } else if key == "°"@ {
        176
    } else if key == "±"@ {
        177
    } else if key == "²"@ {
        178
    } else if key == "³"@ {
        179
    } else if key == "´"@ {
        180
    } else if key == "µ"@ {
        181
    } else if key == "¶"@ {
        182
    } else if key == "·"@ {
        183
    } else if key == "¸"@ {
        184
    } else if key == "¹"@ {
        185
    } else if key == "º"@ {
        186
    } else if key == "»"@ {
        187
    } else if key == "¼"@ {
        188
    } else if key == "½"@ {
        189
    } else if key == "¾"@ {
        190
    } else if key == "¿"@ {
        191
    } else if key == "À"@ {
        192
    } else if key == "Á"@ {
        193
    } else if key == "Â"@ {
        194
    } else if key == "Ã"@ {
        195
    } else if key == "Ä"@ {
        196
    } else if key == "Å"@ {
        197
    } else if key == "Æ"@ {
        198
    } else if key == "Ç"@ {
        199
    } else if key == "È"@ {
        200
    } else if key == "É"@ {
        201
    } else if key == "Ê"@ {
        202
    } else if key == "Ë"@ {
        203
    } else if key == "Ì"@ {
        204
    } else if key == "Í"@ {
        205
    } else if key == "Î"@ {
        206
    } else if key == "Ï"@ {
        207
    } else if key == "Ð"@ {
        208
    } else if key == "Ñ"@ {
        209
    } else if key == "Ò"@ {
        210
    } else if key == "Ó"@ {
        211
    } else if key == "Ô"@ {
        212
    } else if key == "Õ"@ {
        213
    } else if key == "Ö"@ {
        214
    } else if key == "×"@ {
        215
    } else if key == "Ø"@ {
        216
    } else if key == "Ù"@ {
        217
    } else if key == "Ú"@ {
        218
    } else if key == "Û"@ {
        219
    } else if key == "Ü"@ {
        220
    } else if key == "Ý"@ {
        221
    } else if key == "Þ"@ {
        222
    } else if key == "ß"@ {
        223
    } else if key == "à"@ {
        224
    } else if key == "á"@ {
        225
    } else if key == "â"@ {
        226
    } else if key == "ã"@ {
        227
    } else if key == "ä"@ {
        228
    } else if key == "å"@ {
        229
    } else if key == "æ"@ {
        230
    } else if key == "ç"@ {
        231
    } else if key == "è"@ {
        232
    } else if key == "é"@ {
        233
    } else if key == "ê"@ {
        234
    } else if key == "ë"@ {
        235
    } else if key == "ì"@ {
        236
    } else if key == "í"@ {
        237
    } else if key == "î"@ {
        238
    } else if key == "ï"@ {
        239
    } else if key == "ð"@ {
        240
    } else if key == "ñ"@ {
        241
    } else if key == "ò"@ {
        242
    } else if key == "ó"@ {
        243
    } else if key == "ô"@ {
        244
    } else if key == "õ"@ {
        245
    } else if key == "ö"@ {
        246
    } else if key == "÷"@ {
        247
    } else if key == "ø"@ {
        248
    } else if key == "ù"@ {
        249
    } else if key == "ú"@ {
        250
    } else if key == "û"@ {
        251
    } else if key == "ü"@ {
        252
    } else if key == "ý"@ {
        253
    } else if key == "þ"@ {
        254
    } else if key == "ÿ"@ {
        255
    } else {
        63
    }
}

/// Converts a `KeyboardEvent.key` value into its Windows-1252 byte, `?`
/// where there is none.
pub fn web_key_to_ascii(key: &str) -> (r: Option<u8>)
    ensures
        r == Some(ascii_of(key@)),
{
    let ascii: u8 = if str_eq(key, "Backspace") {
        8
    } else if str_eq(key, "Tab") {
        9
    } else if str_eq(key, "Escape") {
        27
    } else if str_eq(key, "!") {
        33
    } else if str_eq(key, "\"") {
        34
    } else if str_eq(key, "#") {
        35
    } else if str_eq(key, "$") {
        36
    } else if str_eq(key, "%") {
        37
    } else if str_eq(key, "&") {
        38
    } else if str_eq(key, "'") {
        39
    } else if str_eq(key, "(") {
        40
    } else if str_eq(key, ")") {
        41
    } else if str_eq(key, "*") {
        42
    } else if str_eq(key, "+") {
        43
    } else if str_eq(key, ",") {
        44
    } else if str_eq(key, "-") {
        45
    } else if str_eq(key, ".") {
        46
    } else if str_eq(key, "/") {
        47
    } else if str_eq(key, "0") {
        48
    } else if str_eq(key, "1") {
        49
    } else if str_eq(key, "2") {
        50
    } else if str_eq(key, "3") {
        51
    } else if str_eq(key, "4") {
        52
    } else if str_eq(key, "5") {
        53
    } else if str_eq(key, "6") {
        54
    } else if str_eq(key, "7") {
        55
    } else if str_eq(key, "8") {
        56
    } else if str_eq(key, "9") {
        57
    } else if str_eq(key, ":") {
        58
    } else if str_eq(key, ";") {
        59
    } else if str_eq(key, "<") {
        60
    } else if str_eq(key, "=") {
        61
    } else if str_eq(key, ">") {
        62
    } else if str_eq(key, "?") {
        63
    } else if str_eq(key, "@") {
        64
    } else if str_eq(key, "A") {
        65
    } else if str_eq(key, "B") {
        66
    } else if str_eq(key, "C") {
        67
    } else if str_eq(key, "D") {
        68
    } else if str_eq(key, "E") {
        69
    } else if str_eq(key, "F") {
        70
    } else if str_eq(key, "G") {
        71
    } else if str_eq(key, "H") {
        72
    } else if str_eq(key, "I") {
        73
    } else if str_eq(key, "J") {
        74
    } else if str_eq(key, "K") {
        75
    } else if str_eq(key, "L") {
        76
    } else if str_eq(key, "M") {
        77
    } else if str_eq(key, "N") {
        78
    } else if str_eq(key, "O") {
        79
    } else if str_eq(key, "P") {
        80
    } else if str_eq(key, "Q") {
        81
    } else if str_eq(key, "R") {
        82
    } else if str_eq(key, "S") {
        83
    } else if str_eq(key, "T") {
        84
    } else if str_eq(key, "U") {
        85
    } else if str_eq(key, "V") {
        86
    } else if str_eq(key, "W") {
        87
    } else if str_eq(key, "X") {
        88
    } else if str_eq(key, "Y") {
        89
    } else if str_eq(key, "Z") {
        90
    } else if str_eq(key, "[") {
        91
    } else if str_eq(key, "\\") {
        92
    } else if str_eq(key, "]") {
        93
    } else if str_eq(key, "^") {
        94
    } else if str_eq(key, "_") {
        95
    } else if str_eq(key, "`") {
        96
    } else if str_eq(key, "a") {
        97
    } else if str_eq(key, "b") {
        98
    } else if str_eq(key, "c") {
        99
    } else if str_eq(key, "d") {
        100
    } else if str_eq(key, "e") {
        101
    } else if str_eq(key, "f") {
        102
    } else if str_eq(key, "g") {
        103
    } else if str_eq(key, "h") {
        104
    } else if str_eq(key, "i") {
        105
    } else if str_eq(key, "j") {
        106
    } else if str_eq(key, "k") {
        107
    } else if str_eq(key, "l") {
        108
    } else if str_eq(key, "m") {
        109
    } else if str_eq(key, "n") {
        110
    } else if str_eq(key, "o") {
        111
    } else if str_eq(key, "p") {
        112
    } else if str_eq(key, "q") {
        113
    } else if str_eq(key, "r") {
        114
    } else if str_eq(key, "s") {
        115
    } else if str_eq(key, "t") {
        116
    } else if str_eq(key, "u") {
        117
    } else if str_eq(key, "v") {
        118
    } else if str_eq(key, "w") {
        119
    } else if str_eq(key, "x") {
        120
    } else if str_eq(key, "y") {
        121
    } else if str_eq(key, "z") {
        122
    } else if str_eq(key, "{") {
        123
    } else if str_eq(key, "|") {
        124
    } else if str_eq(key, "}") {
        125
    } else if str_eq(key, "~") {
        126
    } else if str_eq(key, "Delete") {
        127
    } else if str_eq(key, "€") {
        128
    } else if str_eq(key, "‚") {
        130
    } else if str_eq(key, "ƒ") {
        131
    } else if str_eq(key, "„") {
        132
    } else if str_eq(key, "…") {
        133
    } else if str_eq(key, "†") {
        134
    } else if str_eq(key, "‡") {
        135
    } else if str_eq(key, "ˆ") {
        136
    } else if str_eq(key, "‰") {
        137
    } else if str_eq(key, "Š") {
        138
    } else if str_eq(key, "‹") {
        139
    } else if str_eq(key, "Œ") {
        140
    } else if str_eq(key, "Ž") {
        142
    } else if str_eq(key, "‘") {
        145
    } else if str_eq(key, "’") {
        146
    } else if str_eq(key, "“") {
        147
    } else if str_eq(key, "”") {
        148
    } else if str_eq(key, "•") {
        149
    } else if str_eq(key, "–") {
        150
    } else if str_eq(key, "—") {
        151
    } else if str_eq(key, "˜") {
        152
    } else if str_eq(key, "™") {
        153
    } else if str_eq(key, "š") {
        154
    } else if str_eq(key, "›") {
        155
    } else if str_eq(key, "œ") {
        156
    } else if str_eq(key, "ž") {
        158
    } else if str_eq(key, "Ÿ") {
        159
    } else if str_eq(key, "¡") {
        161
    } else if str_eq(key, "¢") {
        162
    } else if str_eq(key, "£") {
        163
    } else if str_eq(key, "¤") {
        164
    } else if str_eq(key, "¥") {
        165
    } else if str_eq(key, "¦") {
        166
    } else if str_eq(key, "§") {
        167
    } else if str_eq(key, "¨") {
        168
    } else if str_eq(key, "©") {
        169
    } else if str_eq(key, "ª") {
        170
    } else if str_eq(key, "«") {
        171
    } else if str_eq(key, "¬") {
        172
    } else if str_eq(key, "®") {
        174
    } else if str_eq(key, "¯") {
        175
    } else if str_eq(key, "°") {
        176
    } else if str_eq(key, "±") {
        177
    } else if str_eq(key, "²") {
        178
    } else if str_eq(key, "³") {
        179
    } else if str_eq(key, "´") {
        180
    } else if str_eq(key, "µ") {
        181
    } else if str_eq(key, "¶") {
        182
    } else if str_eq(key, "·") {
        183
    } else if str_eq(key, "¸") {
        184
    } else if str_eq(key, "¹") {
        185
    } else if str_eq(key, "º") {
        186
    } else if str_eq(key, "»") {
        187
    } else if str_eq(key, "¼") {
        188
    } else if str_eq(key, "½") {
        189
    } else if str_eq(key, "¾") {
        190
    } else if str_eq(key, "¿") {
        191
    } else if str_eq(key, "À") {
        192
    } else if str_eq(key, "Á") {
        193
    } else if str_eq(key, "Â") {
        194
    } else if str_eq(key, "Ã") {
        195
    } else if str_eq(key, "Ä") {
        196
    } else if str_eq(key, "Å") {
        197
    } else if str_eq(key, "Æ") {
        198
    } else if str_eq(key, "Ç") {
        199
    } else if str_eq(key, "È") {
        200
    } else if str_eq(key, "É") {
        201
    } else if str_eq(key, "Ê") {
        202
    } else if str_eq(key, "Ë") {
        203
    } else if str_eq(key, "Ì") {
        204
    } else if str_eq(key, "Í") {
        205
    } else if str_eq(key, "Î") {
        206
    } else if str_eq(key, "Ï") {
        207
    } else if str_eq(key, "Ð") {
        208
    } else if str_eq(key, "Ñ") {
        209
    } else if str_eq(key, "Ò") {
        210
    } else if str_eq(key, "Ó") {
        211
    } else if str_eq(key, "Ô") {
        212
    } else if str_eq(key, "Õ") {
        213
    } else if str_eq(key, "Ö") {
        214
    } else if str_eq(key, "×") {
        215
    } else if str_eq(key, "Ø") {
        216
    } else if str_eq(key, "Ù") {
        217
    } else if str_eq(key, "Ú") {
        218
    } else if str_eq(key, "Û") {
        219
    } else if str_eq(key, "Ü") {
        220
    } else if str_eq(key, "Ý") {
        221
    } else if str_eq(key, "Þ") {
        222
    } else if str_eq(key, "ß") {
        223
    } else if str_eq(key, "à") {
        224
    } else if str_eq(key, "á") {
        225
    } else if str_eq(key, "â") {
        226
    } else if str_eq(key, "ã") {
        227
    } else if str_eq(key, "ä") {
        228
    } else if str_eq(key, "å") {
        229
    } else if str_eq(key, "æ") {
        230
    } else if str_eq(key, "ç") {
        231
    } else if str_eq(key, "è") {
        232
    } else if str_eq(key, "é") {
        233
    } else if str_eq(key, "ê") {
        234
    } else if str_eq(key, "ë") {
        235
    } else if str_eq(key, "ì") {
        236
    } else if str_eq(key, "í") {
        237
    } else if str_eq(key, "î") {
        238
    } else if str_eq(key, "ï") {
        239
    } else if str_eq(key, "ð") {
        240
    } else if str_eq(key, "ñ") {
        241
    } else if str_eq(key, "ò") {
        242
    } else if str_eq(key, "ó") {
        243
    } else if str_eq(key, "ô") {
        244
    } else if str_eq(key, "õ") {
        245
    } else if str_eq(key, "ö") {
        246
    } else if str_eq(key, "÷") {
        247
    } else if str_eq(key, "ø") {
        248
    } else if str_eq(key, "ù") {
        249
    } else if str_eq(key, "ú") {
        250
    } else if str_eq(key, "û") {
        251
    } else if str_eq(key, "ü") {
        252
    } else if str_eq(key, "ý") {
        253
    } else if str_eq(key, "þ") {
        254
    } else if str_eq(key, "ÿ") {
        255
    } else {
        63
    };
    Some(ascii)
}

/// Whether one of `keys` holds the characters `c`.
pub open spec fn holds_in(keys: Seq<String>, c: Seq<char>) -> bool {
    exists|j: int| 0 <= j < keys.len() && (#[trigger] keys[j])@ == c
}

proof fn lemma_holds_in_push(keys: Seq<String>, x: String, c: Seq<char>)
    ensures
        holds_in(keys.push(x), c) == (holds_in(keys, c) || x@ == c),
{
    if holds_in(keys, c) {
        let j = choose|j: int| 0 <= j < keys.len() && (#[trigger] keys[j])@ == c;
        assert(keys.push(x)[j] == keys[j]);
    }
    if x@ == c {
        assert(keys.push(x)[keys.len() as int] == x);
    }
    if holds_in(keys.push(x), c) {
        let j = choose|j: int| 0 <= j < keys.push(x).len() && (#[trigger] keys.push(x)[j])@ == c;
        if j < keys.len() {
            assert(keys.push(x)[j] == keys[j]);
        }
    }
}

/// The CSS `cursor` value for a cursor of shape `cursor`, shown or hidden.
pub open spec fn cursor_style_of(visible: bool, cursor: MouseCursor) -> Seq<char> {
    if !visible {
        "none"@
    } else {
        match cursor {
            MouseCursor::Arrow => "auto"@,
            MouseCursor::Hand => "pointer"@,
            MouseCursor::IBeam => "text"@,
            MouseCursor::Grab => "grab"@,
        }
    }
}

/// The key that a code stands for, `Unknown` where none does.
pub open spec fn key_or_unknown(code: Seq<char>) -> KeyCode {
    match key_code_of(code) {
        Some(k) => k,
        None => KeyCode::Unknown,
    }
}

/// The backend's state as plain values.
pub struct InputBackendView {
    /// The `KeyboardEvent.code` values of the keys held down.
    pub pressed: Set<Seq<char>>,
    pub cursor_visible: bool,
    pub cursor: MouseCursor,
    pub last_key: KeyCode,
    pub last_char: Option<char>,
    pub last_ascii: Option<u8>,
}

/// Keyboard and cursor state fed by browser keyboard events.
pub struct WebInputBackend {
    keys_down: Vec<String>,
    cursor_visible: bool,
    cursor: MouseCursor,
    last_key: KeyCode,
    last_char: Option<char>,
    last_ascii: Option<u8>,
}

impl View for WebInputBackend {
    type V = InputBackendView;

    closed spec fn view(&self) -> InputBackendView {
        InputBackendView {
            pressed: Set::new(|c: Seq<char>| holds_in(self.keys_down@, c)),
            cursor_visible: self.cursor_visible,
            cursor: self.cursor,
            last_key: self.last_key,
            last_char: self.last_char,
            last_ascii: self.last_ascii,
        }
    }
}

impl WebInputBackend {
    /// No key held, an arrow cursor shown, no key seen yet.
    pub fn new() -> (r: Self)
        ensures
            r@.pressed == Set::<Seq<char>>::empty(),
            r@.cursor_visible,
            r@.cursor == MouseCursor::Arrow,
            r@.last_key == KeyCode::Unknown,
            r@.last_char is None,
            r@.last_ascii is None,
    {
        let r = WebInputBackend {
            keys_down: Vec::new(),
            cursor_visible: true,
            cursor: MouseCursor::Arrow,
            last_key: KeyCode::Unknown,
            last_char: None,
            last_ascii: None,
        };
        assert(r@.pressed =~= Set::<Seq<char>>::empty());
        r
    }

    fn holds(&self, code: &str) -> (r: bool)
        ensures
            r == self@.pressed.contains(code@),
    {
        let mut i: usize = 0;
        while i < self.keys_down.len()
            invariant
                i <= self.keys_down@.len(),
                forall|j: int| 0 <= j < i ==> (#[trigger] self.keys_down@[j])@ != code@,
            decreases self.keys_down@.len() - i,
        {
            if str_eq(self.keys_down[i].as_str(), code) {
                return true;
            }
            i = i + 1;
        }
        false
    }

    /// Registers a key press: `code` is the event's `KeyboardEvent.code`,
    /// `key` its `KeyboardEvent.key`.
    pub fn keydown(&mut self, code: String, key: &str)
        ensures
            final(self)@.pressed == old(self)@.pressed.insert(code@),
            final(self)@.last_key == key_or_unknown(code@),
            final(self)@.last_char == codepoint_of(key@),
            final(self)@.last_ascii == Some(ascii_of(key@)),
            final(self)@.cursor_visible == old(self)@.cursor_visible,
            final(self)@.cursor == old(self)@.cursor,
    {
        self.last_key = match web_to_ruffle_key_code(code.as_str()) {
            Some(k) => k,
            None => KeyCode::Unknown,
        };
        if !self.holds(code.as_str()) {
            let ghost before = self.keys_down@;
            let ghost c0 = code@;
            self.keys_down.push(code);
            assert forall|c: Seq<char>| holds_in(self.keys_down@, c) == (holds_in(before, c) || c == c0) by {
                lemma_holds_in_push(before, self.keys_down@.last(), c);
                assert(self.keys_down@ == before.push(self.keys_down@.last()));
            }
        }
        self.last_char = web_key_to_codepoint(key);
        self.last_ascii = web_key_to_ascii(key);
        assert(self@.pressed =~= old(self)@.pressed.insert(code@));
    }

    /// Registers a key release: `code` is the event's `KeyboardEvent.code`,
    /// `key` its `KeyboardEvent.key`.
    pub fn keyup(&mut self, code: &str, key: &str)
        ensures
            final(self)@.pressed == old(self)@.pressed.remove(code@),
            final(self)@.last_key == key_or_unknown(code@),
            final(self)@.last_char == codepoint_of(key@),
            final(self)@.last_ascii == Some(ascii_of(key@)),
            final(self)@.cursor_visible == old(self)@.cursor_visible,
            final(self)@.cursor == old(self)@.cursor,
    {
        self.last_key = match web_to_ruffle_key_code(code) {
            Some(k) => k,
            None => KeyCode::Unknown,
        };
        let mut kept: Vec<String> = Vec::new();
        let mut i: usize = 0;
        while i < self.keys_down.len()
            invariant
                i <= self.keys_down@.len(),
                forall|c: Seq<char>|
                    #[trigger] holds_in(kept@, c) == (holds_in(
                        self.keys_down@.take(i as int),
                        c,
                    ) && c != code@),
            decreases self.keys_down@.len() - i,
        {
            let ghost before = kept@;
            let ghost x = self.keys_down@[i as int];
            assert(self.keys_down@.take(i + 1) == self.keys_down@.take(i as int).push(x));
            if !str_eq(self.keys_down[i].as_str(), code) {
                kept.push(self.keys_down[i].clone());
            }
            assert forall|c: Seq<char>|
                #[trigger] holds_in(kept@, c) == (holds_in(self.keys_down@.take(i + 1), c) && c
                    != code@) by {
                lemma_holds_in_push(self.keys_down@.take(i as int), x, c);
                if kept@.len() > before.len() {
                    lemma_holds_in_push(before, kept@.last(), c);
                    assert(kept@ == before.push(kept@.last()));
                }
            }
            i = i + 1;
        }
        assert(self.keys_down@.take(i as int) == self.keys_down@);
        self.keys_down = kept;
        self.last_char = web_key_to_codepoint(key);
        self.last_ascii = web_key_to_ascii(key);
        assert(self@.pressed =~= old(self)@.pressed.remove(code@));
    }

    /// Whether `key` is held down: whether one of the codes held maps to it.
    pub fn is_key_down(&self, key: KeyCode) -> (r: bool)
        ensures
            r == exists|c: Seq<char>| #[trigger] self@.pressed.contains(c) && key_code_of(c) == Some(key),
    {
        let mut i: usize = 0;
        while i < self.keys_down.len()
            invariant
                i <= self.keys_down@.len(),
                forall|j: int| 0 <= j < i ==> key_code_of((#[trigger] self.keys_down@[j])@) != Some(key),
            decreases self.keys_down@.len() - i,
        {
            match web_to_ruffle_key_code(self.keys_down[i].as_str()) {
                Some(k) => {
                    if k == key {
                        assert(self@.pressed.contains(self.keys_down@[i as int]@));
                        return true;
                    }
                },
                None => {},
            }
            i = i + 1;
        }
        false
    }

    /// The key of the last keyboard event.
    pub fn last_key_code(&self) -> (r: KeyCode)
        ensures
            r == self@.last_key,
    {
        self.last_key
    }

    /// The character of the last keyboard event, if it was a printable one.
    pub fn last_key_char(&self) -> (r: Option<char>)
        ensures
            r == self@.last_char,
    {
        self.last_char
    }

    /// The Windows-1252 byte of the last keyboard event.
    pub fn last_key_ascii(&self) -> (r: Option<u8>)
        ensures
            r == self@.last_ascii,
    {
        self.last_ascii
    }

    pub fn mouse_visible(&self) -> (r: bool)
        ensures
            r == self@.cursor_visible,
    {
        self.cursor_visible
    }

    pub fn hide_mouse(&mut self)
        ensures
            !final(self)@.cursor_visible,
            final(self)@.pressed == old(self)@.pressed,
            final(self)@.cursor == old(self)@.cursor,
            final(self)@.last_key == old(self)@.last_key,
            final(self)@.last_char == old(self)@.last_char,
            final(self)@.last_ascii == old(self)@.last_ascii,
    {
        self.cursor_visible = false;
    }

    pub fn show_mouse(&mut self)
        ensures
            final(self)@.cursor_visible,
            final(self)@.pressed == old(self)@.pressed,
            final(self)@.cursor == old(self)@.cursor,
            final(self)@.last_key == old(self)@.last_key,
            final(self)@.last_char == old(self)@.last_char,
            final(self)@.last_ascii == old(self)@.last_ascii,
    {
        self.cursor_visible = true;
    }

    pub fn set_mouse_cursor(&mut self, cursor: MouseCursor)
        ensures
            final(self)@.cursor == cursor,
            final(self)@.cursor_visible == old(self)@.cursor_visible,
            final(self)@.pressed == old(self)@.pressed,
            final(self)@.last_key == old(self)@.last_key,
            final(self)@.last_char == old(self)@.last_char,
            final(self)@.last_ascii == old(self)@.last_ascii,
    {
        self.cursor = cursor;
    }

    /// The CSS `cursor` value the canvas should carry.
    pub fn cursor_style(&self) -> (r: &'static str)
        ensures
            r@ == cursor_style_of(self@.cursor_visible, self@.cursor),
    {
        if self.cursor_visible {
            match self.cursor {
                MouseCursor::Arrow => "auto",
                MouseCursor::Hand => "pointer",
                MouseCursor::IBeam => "text",
                MouseCursor::Grab => "grab",
            }
        } else {
            "none"
        }
    }
}

} // verus!
