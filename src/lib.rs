//! Formatted-text span model: a text buffer partitioned into formatting runs,
//! with a defensive traversal that stays in bounds when the runs and the text
//! disagree, plus the keyboard mapping of the web input backend.

pub mod input;
pub mod iterators;
pub mod string_utils;
pub mod text_format;

pub use input::{
    str_eq, web_key_to_ascii, web_key_to_codepoint, web_to_ruffle_key_code, InputBackendView, KeyCode,
    MouseCursor, WebInputBackend,
};
pub use iterators::TextSpanIter;
pub use string_utils::{get_chars, len_chars};
pub use text_format::{FormatSpans, TextSpan};
