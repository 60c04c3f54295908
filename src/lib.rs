//! Terminal-control primitives: ANSI escape sequences for cursor movement,
//! clearing, cursor visibility and scroll regions, styled text, and the
//! interpretation of a terminal-size query.
use vstd::prelude::*;

pub mod control;
pub mod decimal;
pub mod render;
pub mod size;
pub mod style;

pub use control::{
    clear_line, clear_screen, hide_cursor, move_cursor, move_cursor_down, move_cursor_up,
    restore_cursor_pos, save_cursor_pos, set_scrollable_region, show_cursor,
};
pub use render::Render;
pub use size::{get_console_size, get_terminal_size, ConsoleWindow, SizeError, WinSize};
pub use style::{escape_prefix, style, Style, StyleAttributes, TerminalAttribute};

verus! {

/// Severity of a message shown to the user.
#[allow(non_camel_case_types, clippy::upper_case_acronyms)]
#[derive(Clone, Copy, Debug, PartialEq, Eq, Structural)]
pub enum LogLevel {
    INFO,
    WARN,
    ERROR,
}

} // verus!
