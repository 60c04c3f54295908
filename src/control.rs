//! Terminal-control sequences. Each operation appends its sequence to an
//! output buffer; the caller writes the buffer to the terminal and flushes it.
use vstd::prelude::*;

use crate::decimal::{decimal, push_decimal};

verus! {

/// The control sequence introducer: the escape character and `[`.
pub open spec fn csi() -> Seq<char> {
    seq!['\x1b', '[']
}

/// Erase the whole current line, then return the cursor to column one.
pub open spec fn clear_line_seq() -> Seq<char> {
    csi() + seq!['2', 'K', '\r']
}

/// Erase the whole screen, then move the cursor to the top-left cell.
pub open spec fn clear_screen_seq() -> Seq<char> {
    csi() + seq!['2', 'J'] + csi() + seq!['H']
}

/// Move the cursor to the one-based position (`row`, `col`).
pub open spec fn move_cursor_seq(row: nat, col: nat) -> Seq<char> {
    csi() + decimal(row) + seq![';'] + decimal(col) + seq!['H']
}

/// Move the cursor `n` lines up.
pub open spec fn move_up_seq(n: nat) -> Seq<char> {
    csi() + decimal(n) + seq!['A']
}

/// Move the cursor `n` lines down.
pub open spec fn move_down_seq(n: nat) -> Seq<char> {
    csi() + decimal(n) + seq!['B']
}

/// Save the cursor position.
pub open spec fn save_cursor_seq() -> Seq<char> {
    csi() + seq!['s']
}

/// Restore the saved cursor position.
pub open spec fn restore_cursor_seq() -> Seq<char> {
    csi() + seq!['u']
}

/// Hide the cursor.
pub open spec fn hide_cursor_seq() -> Seq<char> {
    csi() + seq!['?', '2', '5', 'l']
}

/// Show the cursor.
pub open spec fn show_cursor_seq() -> Seq<char> {
    csi() + seq!['?', '2', '5', 'h']
}

/// Confine scrolling to the lines from `top` to `bottom`.
pub open spec fn scroll_region_seq(top: nat, bottom: nat) -> Seq<char> {
    csi() + decimal(top) + seq![';'] + decimal(bottom) + seq!['r']
}

/// Appends the sequence that clears the current line.
pub fn clear_line(out: &mut String)
    ensures
        final(out)@ == old(out)@ + clear_line_seq(),
{
    proof {
        reveal_strlit("\x1b[2K\r");
    }
    out.append("\x1b[2K\r");
    assert(out@ =~= old(out)@ + clear_line_seq());
}

/// Appends the sequence that clears the screen and homes the cursor.
pub fn clear_screen(out: &mut String)
    ensures
        final(out)@ == old(out)@ + clear_screen_seq(),
{
    proof {
        reveal_strlit("\x1b[2J\x1b[H");
    }
    out.append("\x1b[2J\x1b[H");
    assert(out@ =~= old(out)@ + clear_screen_seq());
}

/// Appends the sequence that moves the cursor to (`row`, `col`), both
/// one-based. The values are not checked: the terminal decides what to do
/// with a position it does not have.
pub fn move_cursor(out: &mut String, row: u16, col: u16)
    ensures
        final(out)@ == old(out)@ + move_cursor_seq(row as nat, col as nat),
{
    proof {
        reveal_strlit("\x1b[");
        reveal_strlit(";");
        reveal_strlit("H");
    }
    out.append("\x1b[");
    push_decimal(out, row as u64);
    out.append(";");
    push_decimal(out, col as u64);
    out.append("H");
    assert(out@ =~= old(out)@ + move_cursor_seq(row as nat, col as nat));
}

/// Appends the sequence that moves the cursor `n` lines up.
pub fn move_cursor_up(out: &mut String, n: u16)
    ensures
        final(out)@ == old(out)@ + move_up_seq(n as nat),
{
    proof {
        reveal_strlit("\x1b[");
        reveal_strlit("A");
    }
    out.append("\x1b[");
    push_decimal(out, n as u64);
    out.append("A");
    assert(out@ =~= old(out)@ + move_up_seq(n as nat));
}

/// Appends the sequence that moves the cursor `n` lines down.
pub fn move_cursor_down(out: &mut String, n: u16)
    ensures
        final(out)@ == old(out)@ + move_down_seq(n as nat),
{
    proof {
        reveal_strlit("\x1b[");
        reveal_strlit("B");
    }
    out.append("\x1b[");
    push_decimal(out, n as u64);
    out.append("B");
    assert(out@ =~= old(out)@ + move_down_seq(n as nat));
}

/// Appends the sequence that saves the cursor position.
pub fn save_cursor_pos(out: &mut String)
    ensures
        final(out)@ == old(out)@ + save_cursor_seq(),
{
    proof {
        reveal_strlit("\x1b[s");
    }
    out.append("\x1b[s");
    assert(out@ =~= old(out)@ + save_cursor_seq());
}

/// Appends the sequence that restores the saved cursor position.
pub fn restore_cursor_pos(out: &mut String)
    ensures
        final(out)@ == old(out)@ + restore_cursor_seq(),
{
    proof {
        reveal_strlit("\x1b[u");
    }
    out.append("\x1b[u");
    assert(out@ =~= old(out)@ + restore_cursor_seq());
}

/// Appends the sequence that hides the cursor.
pub fn hide_cursor(out: &mut String)
    ensures
        final(out)@ == old(out)@ + hide_cursor_seq(),
{
    proof {
        reveal_strlit("\x1b[?25l");
    }
    out.append("\x1b[?25l");
    assert(out@ =~= old(out)@ + hide_cursor_seq());
}

/// Appends the sequence that shows the cursor.
pub fn show_cursor(out: &mut String)
    ensures
        final(out)@ == old(out)@ + show_cursor_seq(),
{
    proof {
        reveal_strlit("\x1b[?25h");
    }
    out.append("\x1b[?25h");
    assert(out@ =~= old(out)@ + show_cursor_seq());
}

/// Appends the sequence that confines scrolling to the lines from `top` to
/// `bottom`. As with cursor positions, the bounds are left to the terminal.
pub fn set_scrollable_region(out: &mut String, top: u16, bottom: u16)
    ensures
        final(out)@ == old(out)@ + scroll_region_seq(top as nat, bottom as nat),
{
    proof {
        reveal_strlit("\x1b[");
        reveal_strlit(";");
        reveal_strlit("r");
    }
    out.append("\x1b[");
    push_decimal(out, top as u64);
    out.append(";");
    push_decimal(out, bottom as u64);
    out.append("r");
    assert(out@ =~= old(out)@ + scroll_region_seq(top as nat, bottom as nat));
}

} // verus!
