//! Debug log: on in debug builds, where lines go to a file in the temporary
//! directory (and to standard error); off in release builds, where every
//! operation does nothing.
//!
//! The log also keeps the UI's update counter, raised once per UI update,
//! by which the keepalive thread sees whether the UI loop still runs.

use vstd::prelude::*;
use vstd::string::*;
use crate::text::{decimal, push_decimal};

verus! {

/// File name of the log in the temporary directory.
pub const LOG_FILE_NAME: &'static str = "keisen-debug.log";

/// The debug log's state.
#[derive(Debug)]
pub struct DebugLog {
    enabled: bool,
    path: String,
    tick: u64,
}

/// The model of a [`DebugLog`].
pub struct DebugLogState {
    pub enabled: bool,
    pub path: Seq<char>,
    pub tick: u64,
}

impl View for DebugLog {
    type V = DebugLogState;

    closed spec fn view(&self) -> DebugLogState {
        DebugLogState { enabled: self.enabled, path: self.path@, tick: self.tick }
    }
}

/// One log line: `{ts} tick={tick} [{tag}] {msg}` and a line break.
pub open spec fn log_line(ts_millis: u128, tick: u64, tag: Seq<char>, msg: Seq<char>) -> Seq<char> {
    decimal(ts_millis as nat) + " tick="@ + decimal(tick as nat) + " ["@ + tag + "] "@ + msg + "\n"@
}

/// The text that starts a fresh log file.
pub open spec fn header_text(pid: u32, path: Seq<char>) -> Seq<char> {
    "=== keisen debug log start pid="@ + decimal(pid as nat) + " ===\n"@ + "log_path="@ + path
        + "\n"@ + "hint: hide window, then tray click/menu. Check heartbeat vs tray events.\n"@
}

impl DebugLog {
    /// The log of a debug build, written to the file at `path`.
    pub fn enabled(path: String) -> (l: DebugLog)
        ensures
            l@ == (DebugLogState { enabled: true, path: path@, tick: 0 }),
    {
        DebugLog { enabled: true, path, tick: 0 }
    }

    /// The log of a release build: every operation does nothing.
    pub fn disabled() -> (l: DebugLog)
        ensures
            l@ == (DebugLogState { enabled: false, path: Seq::<char>::empty(), tick: 0 }),
    {
        DebugLog { enabled: false, path: String::new(), tick: 0 }
    }

    /// Whether lines are written.
    pub fn is_enabled(&self) -> (b: bool)
        ensures
            b == self@.enabled,
    {
        self.enabled
    }

    /// The text that starts a fresh log file for process `pid` (the file is
    /// truncated first); `None` when the log is off.
    pub fn init(&self, pid: u32) -> (h: Option<String>)
        ensures
            h is Some == self@.enabled,
            h matches Some(t) ==> t@ == header_text(pid, self@.path),
    {
        if !self.enabled {
            return None;
        }
        let mut h = String::from_str("=== keisen debug log start pid=");
        push_decimal(&mut h, pid as u128);
        h.append(" ===\n");
        h.append("log_path=");
        h.append(self.path.as_str());
        h.append("\n");
        h.append("hint: hide window, then tray click/menu. Check heartbeat vs tray events.\n");
        Some(h)
    }

    /// The log file's path as text; empty when the log is off.
    pub fn path_string(&self) -> (p: String)
        ensures
            p@ == (if self@.enabled { self@.path } else { Seq::<char>::empty() }),
    {
        if self.enabled {
            self.path.clone()
        } else {
            String::new()
        }
    }

    /// Counts one UI update (wrapping, as an atomic add does); nothing when
    /// the log is off.
    pub fn note_update(&mut self)
        ensures
            final(self)@ == (if old(self)@.enabled {
                DebugLogState { tick: (if old(self)@.tick == u64::MAX { 0 } else { (old(self)@.tick + 1) as u64 }), ..old(self)@ }
            } else {
                old(self)@
            }),
    {
        if self.enabled {
            self.tick = self.tick.wrapping_add(1);
        }
    }

    /// The number of UI updates counted so far; `0` when the log is off.
    pub fn update_tick(&self) -> (t: u64)
        ensures
            t == (if self@.enabled { self@.tick } else { 0 }),
    {
        if self.enabled {
            self.tick
        } else {
            0
        }
    }

    /// The line to append for a message `msg` with tag `tag` at
    /// `ts_millis` milliseconds since the Unix epoch; `None` when the log is
    /// off.
    pub fn log(&self, ts_millis: u128, tag: &str, msg: &str) -> (line: Option<String>)
        ensures
            line is Some == self@.enabled,
            line matches Some(l) ==> l@ == log_line(ts_millis, self@.tick, tag@, msg@),
    {
        if !self.enabled {
            return None;
        }
        let mut l = String::new();
        push_decimal(&mut l, ts_millis);
        l.append(" tick=");
        push_decimal(&mut l, self.tick as u128);
        l.append(" [");
        l.append(tag);
        l.append("] ");
        l.append(msg);
        l.append("\n");
        assert(l@ =~= log_line(ts_millis, self@.tick, tag@, msg@));
        Some(l)
    }

    /// The arguments for the command interpreter that opens the log file in
    /// its associated program (`/C start "" <path>`); `None` when the log is
    /// off.
    pub fn open_log_file(&self) -> (args: Option<Vec<String>>)
        ensures
            args is Some == self@.enabled,
            args matches Some(a) ==> a@.len() == 4 && a@[0]@ == "/C"@ && a@[1]@ == "start"@
                && a@[2]@ == ""@ && a@[3]@ == self@.path,
    {
        if !self.enabled {
            return None;
        }
        let mut a: Vec<String> = Vec::new();
        a.push(String::from_str("/C"));
        a.push(String::from_str("start"));
        a.push(String::from_str(""));
        a.push(self.path.clone());
        Some(a)
    }

    /// The status-bar text that shows where the log is; empty when the log
    /// is off.
    pub fn status_text(&self) -> (s: String)
        ensures
            s@ == (if self@.enabled { "log: "@ + self@.path } else { Seq::<char>::empty() }),
    {
        if self.enabled {
            let mut s = String::from_str("log: ");
            s.append(self.path.as_str());
            s
        } else {
            String::new()
        }
    }
}

} // verus!
