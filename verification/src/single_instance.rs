//! Single start-up through a named mutex: a second process brings the
//! existing window to the front and exits.

use vstd::prelude::*;
use crate::input::{encode_utf16, utf16};

verus! {

/// Title of the main window; the second process finds the first one's
/// window by it.
pub const WINDOW_TITLE: &'static str = "罫線";

/// Name of the user-local mutex that marks a running instance.
pub const MUTEX_NAME: &'static str = "Local\\keisen_single_instance_v1";

/// What start-up does after trying to create the named mutex.
#[derive(Debug, Clone, Copy, PartialEq, Eq, Structural)]
pub enum Acquire {
    /// The mutex could not be created: start anyway, holding nothing.
    ProceedUnguarded,
    /// This is the first instance: keep the mutex handle open until the
    /// process ends, and start.
    ProceedHolding,
    /// Another instance holds the mutex: close the handle, bring the other
    /// instance's window to the front, and exit.
    AlreadyRunning,
}

impl Acquire {
    /// Whether this process goes on starting (`try_acquire`'s result).
    pub fn proceeds(&self) -> (b: bool)
        ensures
            b == !(*self is AlreadyRunning),
    {
        match self {
            Acquire::AlreadyRunning => false,
            _ => true,
        }
    }
}

/// The start-up decision: `created` is whether creating the mutex returned
/// a handle, `already_exists` whether the system then reported that the
/// mutex existed before.
pub fn try_acquire(created: bool, already_exists: bool) -> (a: Acquire)
    ensures
        a == (if !created {
            Acquire::ProceedUnguarded
        } else if already_exists {
            Acquire::AlreadyRunning
        } else {
            Acquire::ProceedHolding
        }),
{
    if !created {
        Acquire::ProceedUnguarded
    } else if already_exists {
        Acquire::AlreadyRunning
    } else {
        Acquire::ProceedHolding
    }
}

/// How to show a window.
#[derive(Debug, Clone, Copy, PartialEq, Eq, Structural)]
pub enum ShowCommand {
    /// Restore a minimized window.
    Restore,
    /// Show the window as it is.
    Show,
}

/// A minimized window is restored, any other is shown; both are then
/// brought to the front.
pub fn show_command(iconic: bool) -> (c: ShowCommand)
    ensures
        c == (if iconic { ShowCommand::Restore } else { ShowCommand::Show }),
{
    if iconic {
        ShowCommand::Restore
    } else {
        ShowCommand::Show
    }
}

/// Whether `hwnd` is the foreground window `foreground` (`0` when there is
/// none).
pub fn is_hwnd_foreground(foreground: isize, hwnd: isize) -> (b: bool)
    ensures
        b == (foreground != 0 && foreground == hwnd),
{
    foreground != 0 && foreground == hwnd
}

/// The window of the running instance to bring to the front: the window
/// found by title, unless the search failed or found none.
pub fn existing_window(found: Option<isize>) -> (w: Option<isize>)
    ensures
        w == (match found {
            Some(h) => if h != 0 { Some(h) } else { None },
            None => None,
        }),
{
    match found {
        Some(h) => if h != 0 { Some(h) } else { None },
        None => None,
    }
}

/// `text` as a null-terminated UTF-16 string, as the system's wide-string
/// functions take it.
pub fn to_wide_null(text: &str) -> (w: Vec<u16>)
    ensures
        w@ == utf16(text@).push(0),
{
    let mut w = encode_utf16(text);
    w.push(0);
    w
}

/// The window title as a null-terminated UTF-16 string, to find the window
/// of a running instance.
pub fn window_title_wide() -> (w: Vec<u16>)
    ensures
        w@ == utf16(WINDOW_TITLE@).push(0),
{
    to_wide_null(WINDOW_TITLE)
}

/// The mutex name as a null-terminated UTF-16 string.
pub fn mutex_name_wide() -> (w: Vec<u16>)
    ensures
        w@ == utf16(MUTEX_NAME@).push(0),
{
    to_wide_null(MUTEX_NAME)
}

} // verus!
