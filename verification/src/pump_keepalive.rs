//! Keeping the UI thread's message loop awake.
//!
//! While the main window is hidden the UI loop may wait for a long time,
//! and the tray's messages on the same thread would then go unprocessed. A
//! background thread therefore wakes the main window every interval, and
//! every [`HEARTBEAT_EVERY`] wake-ups it checks that the UI's update counter
//! still moves, reporting a stall once and the recovery after it.

use vstd::prelude::*;
use vstd::string::*;
use crate::text::{decimal, bool_text, push_decimal, push_bool};

verus! {

/// Milliseconds between two wake-ups.
pub const INTERVAL_MILLIS: u64 = 100;

/// Wake-ups between two heartbeat checks (two seconds).
pub const HEARTBEAT_EVERY: u64 = 20;

/// What one wake-up reports.
#[derive(Debug, Clone, Copy, PartialEq, Eq, Structural)]
pub enum Report {
    /// Not a heartbeat wake-up, or a stall that was already reported.
    Quiet,
    /// The update counter has not moved since the last heartbeat: first
    /// report of this stall.
    Stall,
    /// The counter moves again after a reported stall: the recovery line,
    /// then the heartbeat line.
    Recovered,
    /// The counter moves: the heartbeat line.
    Healthy,
}

/// One wake-up's decisions.
#[derive(Debug, Clone, Copy, PartialEq, Eq, Structural)]
pub struct Step {
    /// Whether to post a wake-up message to the main window (only once its
    /// handle is known).
    pub wake: bool,
    pub report: Report,
}

/// The keepalive thread's state.
#[derive(Debug)]
pub struct Keepalive {
    last_tick: u64,
    stall_logged: bool,
    n: u64,
}

/// The model of a [`Keepalive`]: the update counter seen at the last
/// heartbeat that moved, whether the current stall was reported, and the
/// number of wake-ups so far (wrapping).
pub struct KeepaliveState {
    pub last_tick: u64,
    pub stall_logged: bool,
    pub n: u64,
}

impl View for Keepalive {
    type V = KeepaliveState;

    closed spec fn view(&self) -> KeepaliveState {
        KeepaliveState { last_tick: self.last_tick, stall_logged: self.stall_logged, n: self.n }
    }
}

/// The state and decisions after one wake-up, given whether the window
/// handle is known and the UI's update counter.
pub open spec fn next(s: KeepaliveState, hwnd_known: bool, tick: u64) -> (KeepaliveState, Step) {
    let n = if s.n == u64::MAX { 0 } else { (s.n + 1) as u64 };
    if n % HEARTBEAT_EVERY != 0 {
        (KeepaliveState { n, ..s }, Step { wake: hwnd_known, report: Report::Quiet })
    } else if tick == s.last_tick {
        if s.stall_logged {
            (KeepaliveState { n, ..s }, Step { wake: hwnd_known, report: Report::Quiet })
        } else {
            (
                KeepaliveState { n, stall_logged: true, ..s },
                Step { wake: hwnd_known, report: Report::Stall },
            )
        }
    } else {
        (
            KeepaliveState { n, stall_logged: false, last_tick: tick },
            Step {
                wake: hwnd_known,
                report: if s.stall_logged { Report::Recovered } else { Report::Healthy },
            },
        )
    }
}

impl Keepalive {
    /// The state when the thread starts; `tick` is the update counter then.
    pub fn new(tick: u64) -> (k: Keepalive)
        ensures
            k@ == (KeepaliveState { last_tick: tick, stall_logged: false, n: 0 }),
    {
        Keepalive { last_tick: tick, stall_logged: false, n: 0 }
    }

    /// One wake-up, after the interval's sleep.
    pub fn step(&mut self, hwnd_known: bool, tick: u64) -> (st: Step)
        ensures
            (final(self)@, st) == next(old(self)@, hwnd_known, tick),
    {
        self.n = self.n.wrapping_add(1);
        let mut report = Report::Quiet;
        if self.n % HEARTBEAT_EVERY == 0 {
            if tick == self.last_tick {
                if !self.stall_logged {
                    report = Report::Stall;
                    self.stall_logged = true;
                }
            } else {
                if self.stall_logged {
                    report = Report::Recovered;
                } else {
                    report = Report::Healthy;
                }
                self.stall_logged = false;
                self.last_tick = tick;
            }
        }
        Step { wake: hwnd_known, report }
    }
}

/// The stall line: `STALL? update_tick stuck at {tick} want_vis={want}
/// really_vis={visible} hwnd={hwnd_known}`.
pub open spec fn stall_text(tick: u64, want: bool, visible: bool, hwnd_known: bool) -> Seq<char> {
    "STALL? update_tick stuck at "@ + decimal(tick as nat) + " want_vis="@ + bool_text(want)
        + " really_vis="@ + bool_text(visible) + " hwnd="@ + bool_text(hwnd_known)
}

/// The recovery line: `recovered update_tick={tick}`.
pub open spec fn recovered_text(tick: u64) -> Seq<char> {
    "recovered update_tick="@ + decimal(tick as nat)
}

/// The heartbeat line: `ok tick={tick} want_vis={want} really_vis={visible}`.
pub open spec fn ok_text(tick: u64, want: bool, visible: bool) -> Seq<char> {
    "ok tick="@ + decimal(tick as nat) + " want_vis="@ + bool_text(want) + " really_vis="@
        + bool_text(visible)
}

/// The stall line for the log.
pub fn stall_message(tick: u64, want: bool, visible: bool, hwnd_known: bool) -> (m: String)
    ensures
        m@ == stall_text(tick, want, visible, hwnd_known),
{
    let mut m = String::from_str("STALL? update_tick stuck at ");
    push_decimal(&mut m, tick as u128);
    m.append(" want_vis=");
    push_bool(&mut m, want);
    m.append(" really_vis=");
    push_bool(&mut m, visible);
    m.append(" hwnd=");
    push_bool(&mut m, hwnd_known);
    m
}

/// The recovery line for the log.
pub fn recovered_message(tick: u64) -> (m: String)
    ensures
        m@ == recovered_text(tick),
{
    let mut m = String::from_str("recovered update_tick=");
    push_decimal(&mut m, tick as u128);
    m
}

/// The heartbeat line for the log.
pub fn ok_message(tick: u64, want: bool, visible: bool) -> (m: String)
    ensures
        m@ == ok_text(tick, want, visible),
{
    let mut m = String::from_str("ok tick=");
    push_decimal(&mut m, tick as u128);
    m.append(" want_vis=");
    push_bool(&mut m, want);
    m.append(" really_vis=");
    push_bool(&mut m, visible);
    m
}

/// A stall is reported once: a stall report leaves the state "stall
/// reported at this counter", and from such a state every wake-up that
/// sees the same counter stays quiet and keeps the state, so no later
/// heartbeat reports the stall again until the counter moves.
pub proof fn lemma_stall_reported_once(s: KeepaliveState, hwnd_known: bool, tick: u64)
    ensures
        next(s, hwnd_known, tick).1.report == Report::Stall ==> {
            &&& next(s, hwnd_known, tick).0.stall_logged
            &&& next(s, hwnd_known, tick).0.last_tick == tick
        },
        s.stall_logged && tick == s.last_tick ==> {
            &&& next(s, hwnd_known, tick).1.report == Report::Quiet
            &&& next(s, hwnd_known, tick).0.stall_logged
            &&& next(s, hwnd_known, tick).0.last_tick == s.last_tick
        },
{
}

/// A recovery is reported only after a reported stall, and a stall only
/// when the counter did not move.
pub proof fn lemma_reports_follow_counter(s: KeepaliveState, hwnd_known: bool, tick: u64)
    ensures
        next(s, hwnd_known, tick).1.report == Report::Recovered ==> s.stall_logged && tick != s.last_tick,
        next(s, hwnd_known, tick).1.report == Report::Stall ==> !s.stall_logged && tick == s.last_tick,
        next(s, hwnd_known, tick).1.report == Report::Healthy ==> !s.stall_logged && tick != s.last_tick,
{
}

/// Every wake-up wakes the window exactly when its handle is known, and only
/// every [`HEARTBEAT_EVERY`]-th wake-up looks at the counter.
pub proof fn lemma_wake_and_heartbeat_period(s: KeepaliveState, hwnd_known: bool, tick: u64)
    ensures
        next(s, hwnd_known, tick).1.wake == hwnd_known,
        next(s, hwnd_known, tick).0.n % HEARTBEAT_EVERY != 0 ==> {
            &&& next(s, hwnd_known, tick).1.report == Report::Quiet
            &&& next(s, hwnd_known, tick).0.last_tick == s.last_tick
            &&& next(s, hwnd_known, tick).0.stall_logged == s.stall_logged
        },
        s.n < u64::MAX ==> next(s, hwnd_known, tick).0.n == s.n + 1,
{
}

} // verus!
