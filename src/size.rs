//! Interpretation of the native terminal-size queries. The queries
//! themselves (an ioctl on POSIX systems, the console screen-buffer info on
//! Windows) are made by the caller, which hands their raw results here; the
//! answer is always the current one, as nothing is cached.
use vstd::prelude::*;

verus! {

/// Why a terminal-size query gave no size.
#[derive(Clone, Copy, Debug, PartialEq, Eq, Structural)]
pub enum SizeError {
    /// The native call reported failure (a non-zero status, an invalid
    /// handle, or a terminal device that could not be opened).
    QueryFailed,
    /// The call succeeded but reported an empty window: the output is not
    /// attached to a terminal.
    NotATerminal,
}

impl SizeError {
    /// The text of [`SizeError::message`].
    pub open spec fn message_spec(self) -> Seq<char> {
        match self {
            SizeError::QueryFailed => "could not get the terminal size: the native query failed"@,
            SizeError::NotATerminal => "could not get the terminal size: output is not a terminal"@,
        }
    }

    /// A description of the failure, for the user.
    pub fn message(&self) -> (r: String)
        ensures
            r@ == self.message_spec(),
    {
        match self {
            SizeError::QueryFailed => String::from_str(
                "could not get the terminal size: the native query failed",
            ),
            SizeError::NotATerminal => String::from_str(
                "could not get the terminal size: output is not a terminal",
            ),
        }
    }
}

/// The window-size record that the POSIX query fills in.
#[derive(Clone, Copy, Debug, PartialEq, Eq, Structural)]
pub struct WinSize {
    pub ws_row: u16,
    pub ws_col: u16,
    pub ws_xpixel: u16,
    pub ws_ypixel: u16,
}

/// The visible window of a Windows console buffer, as inclusive cell
/// coordinates.
#[derive(Clone, Copy, Debug, PartialEq, Eq, Structural)]
pub struct ConsoleWindow {
    pub left: i16,
    pub top: i16,
    pub right: i16,
    pub bottom: i16,
}

impl ConsoleWindow {
    /// Number of columns in the window.
    pub open spec fn width(self) -> int {
        self.right - self.left + 1
    }

    /// Number of rows in the window.
    pub open spec fn height(self) -> int {
        self.bottom - self.top + 1
    }
}

/// Whether `n` is a usable dimension: positive and representable as `u16`.
pub open spec fn is_dimension(n: int) -> bool {
    1 <= n <= u16::MAX
}

/// The terminal size, as (columns, rows), from the status of the POSIX
/// window-size query and the record it filled in. A failed call, and a
/// record with no rows or no columns, are errors rather than a size.
pub fn get_terminal_size(status: i32, ws: WinSize) -> (r: Result<(u16, u16), SizeError>)
    ensures
        status != 0 ==> r == Err::<(u16, u16), _>(SizeError::QueryFailed),
        status == 0 && (ws.ws_row == 0 || ws.ws_col == 0)
            ==> r == Err::<(u16, u16), _>(SizeError::NotATerminal),
        status == 0 && ws.ws_row > 0 && ws.ws_col > 0
            ==> r == Ok::<_, SizeError>((ws.ws_col, ws.ws_row)),
        r matches Ok((cols, rows)) ==> cols > 0 && rows > 0,
{
    if status != 0 {
        return Err(SizeError::QueryFailed);
    }
    if ws.ws_row == 0 || ws.ws_col == 0 {
        return Err(SizeError::NotATerminal);
    }
    Ok((ws.ws_col, ws.ws_row))
}

/// The terminal size, as (columns, rows), from the Windows console query:
/// `ok` tells whether the handle was valid and the call succeeded, `window`
/// is the visible window it reported. A window whose width or height is not
/// a positive `u16` is an error rather than a size.
pub fn get_console_size(ok: bool, window: ConsoleWindow) -> (r: Result<(u16, u16), SizeError>)
    ensures
        !ok ==> r == Err::<(u16, u16), _>(SizeError::QueryFailed),
        ok && !(is_dimension(window.width()) && is_dimension(window.height()))
            ==> r == Err::<(u16, u16), _>(SizeError::NotATerminal),
        ok && is_dimension(window.width()) && is_dimension(window.height())
            ==> r == Ok::<_, SizeError>((window.width() as u16, window.height() as u16)),
        r matches Ok((cols, rows)) ==> cols > 0 && rows > 0,
{
    if !ok {
        return Err(SizeError::QueryFailed);
    }
    let width: i32 = window.right as i32 - window.left as i32 + 1;
    let height: i32 = window.bottom as i32 - window.top as i32 + 1;
    if width < 1 || width > 65535 || height < 1 || height > 65535 {
        return Err(SizeError::NotATerminal);
    }
    Ok((width as u16, height as u16))
}

} // verus!
