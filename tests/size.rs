use termctl::{get_console_size, get_terminal_size, ConsoleWindow, SizeError, WinSize};

fn record(rows: u16, cols: u16) -> WinSize {
    WinSize { ws_row: rows, ws_col: cols, ws_xpixel: 0, ws_ypixel: 0 }
}

#[test]
fn terminal_size_is_columns_then_rows() {
    assert_eq!(get_terminal_size(0, record(24, 80)), Ok((80, 24)));
}

#[test]
fn terminal_size_failed_call() {
    assert_eq!(get_terminal_size(-1, record(24, 80)), Err(SizeError::QueryFailed));
}

#[test]
fn terminal_size_not_a_terminal() {
    assert_eq!(get_terminal_size(0, record(0, 0)), Err(SizeError::NotATerminal));
    assert_eq!(get_terminal_size(0, record(0, 80)), Err(SizeError::NotATerminal));
    assert_eq!(get_terminal_size(0, record(24, 0)), Err(SizeError::NotATerminal));
}

#[test]
fn terminal_size_largest() {
    assert_eq!(get_terminal_size(0, record(u16::MAX, u16::MAX)), Ok((u16::MAX, u16::MAX)));
}

#[test]
fn console_size_from_window() {
    let w = ConsoleWindow { left: 0, top: 0, right: 79, bottom: 24 };
    assert_eq!(get_console_size(true, w), Ok((80, 25)));
    let scrolled = ConsoleWindow { left: 5, top: 100, right: 124, bottom: 139 };
    assert_eq!(get_console_size(true, scrolled), Ok((120, 40)));
}

#[test]
fn console_size_failed_call() {
    let w = ConsoleWindow { left: 0, top: 0, right: 79, bottom: 24 };
    assert_eq!(get_console_size(false, w), Err(SizeError::QueryFailed));
}

#[test]
fn console_size_degenerate_window() {
    let inverted = ConsoleWindow { left: 10, top: 0, right: 8, bottom: 24 };
    assert_eq!(get_console_size(true, inverted), Err(SizeError::NotATerminal));
    let too_wide = ConsoleWindow { left: i16::MIN, top: 0, right: i16::MAX, bottom: 0 };
    assert_eq!(get_console_size(true, too_wide), Err(SizeError::NotATerminal));
    let widest = ConsoleWindow { left: i16::MIN, top: 0, right: i16::MAX - 1, bottom: 0 };
    assert_eq!(get_console_size(true, widest), Ok((u16::MAX, 1)));
}

#[test]
fn size_error_messages() {
    assert_eq!(
        SizeError::QueryFailed.message(),
        "could not get the terminal size: the native query failed"
    );
    assert_eq!(
        SizeError::NotATerminal.message(),
        "could not get the terminal size: output is not a terminal"
    );
}
