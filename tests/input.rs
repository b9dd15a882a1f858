use ruffle_spans::{
    str_eq, web_key_to_ascii, web_key_to_codepoint, web_to_ruffle_key_code, KeyCode,
    MouseCursor, WebInputBackend,
};

#[test]
fn key_codes_map_to_keys() {
    assert_eq!(web_to_ruffle_key_code("KeyA"), Some(KeyCode::A));
    assert_eq!(web_to_ruffle_key_code("ShiftLeft"), Some(KeyCode::Shift));
    assert_eq!(web_to_ruffle_key_code("ShiftRight"), Some(KeyCode::Shift));
    assert_eq!(web_to_ruffle_key_code("Enter"), Some(KeyCode::Return));
    assert_eq!(web_to_ruffle_key_code("NumpadAdd"), Some(KeyCode::Plus));
    assert_eq!(web_to_ruffle_key_code("F12"), Some(KeyCode::F12));
    assert_eq!(web_to_ruffle_key_code("F13"), None);
    assert_eq!(web_to_ruffle_key_code(""), None);
}

#[test]
fn keys_to_codepoints() {
    assert_eq!(web_key_to_codepoint("a"), Some('a'));
    assert_eq!(web_key_to_codepoint("é"), Some('é'));
    assert_eq!(web_key_to_codepoint(""), None);
    assert_eq!(web_key_to_codepoint("Backspace"), Some('\u{8}'));
    assert_eq!(web_key_to_codepoint("Delete"), Some('\u{7f}'));
    assert_eq!(web_key_to_codepoint("ArrowLeft"), None);
}

#[test]
fn keys_to_ascii() {
    assert_eq!(web_key_to_ascii("A"), Some(65));
    assert_eq!(web_key_to_ascii("\\"), Some(92));
    assert_eq!(web_key_to_ascii("\""), Some(34));
    assert_eq!(web_key_to_ascii("€"), Some(128));
    assert_eq!(web_key_to_ascii("ÿ"), Some(255));
    assert_eq!(web_key_to_ascii("Tab"), Some(9));
    assert_eq!(web_key_to_ascii("ArrowLeft"), Some(63));
}

#[test]
fn string_equality() {
    assert!(str_eq("abc", "abc"));
    assert!(!str_eq("abc", "abd"));
    assert!(!str_eq("ab", "abc"));
    assert!(str_eq("", ""));
}

#[test]
fn backend_starts_idle() {
    let b = WebInputBackend::new();
    assert!(b.mouse_visible());
    assert_eq!(b.last_key_code(), KeyCode::Unknown);
    assert_eq!(b.last_key_char(), None);
    assert_eq!(b.last_key_ascii(), None);
    assert!(!b.is_key_down(KeyCode::A));
    assert_eq!(b.cursor_style(), "auto");
}

#[test]
fn key_press_and_release() {
    let mut b = WebInputBackend::new();
    b.keydown("ShiftLeft".to_string(), "Shift");
    assert!(b.is_key_down(KeyCode::Shift));
    assert!(!b.is_key_down(KeyCode::Unknown));
    assert_eq!(b.last_key_code(), KeyCode::Shift);
    assert_eq!(b.last_key_char(), None);
    assert_eq!(b.last_key_ascii(), Some(63));
    b.keydown("KeyQ".to_string(), "q");
    assert_eq!(b.last_key_char(), Some('q'));
    assert_eq!(b.last_key_ascii(), Some(113));
    b.keyup("ShiftLeft", "Shift");
    assert!(!b.is_key_down(KeyCode::Shift));
    assert!(b.is_key_down(KeyCode::Q));
}

#[test]
fn repeated_press_is_released_once() {
    let mut b = WebInputBackend::new();
    b.keydown("Space".to_string(), " ");
    b.keydown("Space".to_string(), " ");
    b.keyup("Space", " ");
    assert!(!b.is_key_down(KeyCode::Space));
}

#[test]
fn unmapped_code_sets_unknown_key() {
    let mut b = WebInputBackend::new();
    b.keydown("Launch".to_string(), "LaunchApp");
    assert_eq!(b.last_key_code(), KeyCode::Unknown);
    assert!(!b.is_key_down(KeyCode::Unknown));
}

#[test]
fn cursor_style_follows_state() {
    let mut b = WebInputBackend::new();
    b.set_mouse_cursor(MouseCursor::Hand);
    assert_eq!(b.cursor_style(), "pointer");
    b.set_mouse_cursor(MouseCursor::IBeam);
    assert_eq!(b.cursor_style(), "text");
    b.hide_mouse();
    assert!(!b.mouse_visible());
    assert_eq!(b.cursor_style(), "none");
    b.show_mouse();
    b.set_mouse_cursor(MouseCursor::Grab);
    assert_eq!(b.cursor_style(), "grab");
}
