//! Show/hide state of the main window.
//!
//! The window is only ever hidden with the system's own show/hide call, so
//! the UI loop keeps running while it is hidden. The state kept here is what
//! the user asked for (`want_visible`), whether the window was in front in
//! the last frame (`was_foreground`), whether quitting was requested, and the
//! native window handle once it is known (`0` until then). Every method that
//! acts on the window returns a [`WinAction`] that the caller performs.

use vstd::prelude::*;

verus! {

/// What the caller does to the native window after a state change.
#[derive(Debug, Clone, Copy, PartialEq, Eq, Structural)]
pub enum WinAction {
    /// No window handle is known yet: nothing to do.
    Nothing,
    /// Restore or show the window, bring it to the front, make it topmost,
    /// then wake its message loop.
    Show { hwnd: isize },
    /// Hide the window, then wake its message loop.
    Hide { hwnd: isize },
    /// Show the window and post it a close message.
    Close { hwnd: isize },
}

/// The window's show/hide state, shared by the UI and the tray handler.
#[derive(Debug)]
pub struct WinCtl {
    hwnd: isize,
    want_visible: bool,
    was_foreground: bool,
    should_quit: bool,
}

/// The model of a [`WinCtl`]: its four fields.
pub struct WinState {
    pub hwnd: isize,
    pub want_visible: bool,
    pub was_foreground: bool,
    pub should_quit: bool,
}

impl View for WinCtl {
    type V = WinState;

    closed spec fn view(&self) -> WinState {
        WinState {
            hwnd: self.hwnd,
            want_visible: self.want_visible,
            was_foreground: self.was_foreground,
            should_quit: self.should_quit,
        }
    }
}

/// Whether the window counts as shown: the system's answer once a handle is
/// known, else the user's wish.
pub open spec fn really_visible(s: WinState, window_visible: bool) -> bool {
    if s.hwnd != 0 {
        window_visible
    } else {
        s.want_visible
    }
}

/// Whether a left click on the tray hides the window (else it shows it).
pub open spec fn toggle_hides(s: WinState, window_visible: bool) -> bool {
    (s.want_visible || really_visible(s, window_visible)) && s.was_foreground
}

/// The state after `show`, and the action it returns.
pub open spec fn after_show(s: WinState) -> (WinState, WinAction) {
    (
        WinState { want_visible: true, ..s },
        if s.hwnd == 0 { WinAction::Nothing } else { WinAction::Show { hwnd: s.hwnd } },
    )
}

/// The state after `hide`, and the action it returns.
pub open spec fn after_hide(s: WinState) -> (WinState, WinAction) {
    (
        WinState { want_visible: false, ..s },
        if s.hwnd == 0 { WinAction::Nothing } else { WinAction::Hide { hwnd: s.hwnd } },
    )
}

/// The state after `request_quit`, and the action it returns.
pub open spec fn after_quit(s: WinState) -> (WinState, WinAction) {
    if s.hwnd == 0 {
        (WinState { should_quit: true, ..s }, WinAction::Nothing)
    } else {
        (
            WinState { should_quit: true, want_visible: true, ..s },
            WinAction::Close { hwnd: s.hwnd },
        )
    }
}

/// The state after `toggle`, and the action it returns.
pub open spec fn after_toggle(s: WinState, window_visible: bool) -> (WinState, WinAction) {
    if toggle_hides(s, window_visible) {
        after_hide(s)
    } else {
        after_show(s)
    }
}

impl WinCtl {
    /// A window that the user wants shown, counted as in front, with no
    /// handle yet and no quit requested.
    pub fn new() -> (w: WinCtl)
        ensures
            w@ == (WinState {
                hwnd: 0,
                want_visible: true,
                was_foreground: true,
                should_quit: false,
            }),
    {
        WinCtl { hwnd: 0, want_visible: true, was_foreground: true, should_quit: false }
    }

    /// Records the native window handle.
    pub fn set_hwnd(&mut self, hwnd: isize)
        ensures
            final(self)@ == (WinState { hwnd, ..old(self)@ }),
    {
        self.hwnd = hwnd;
    }

    /// Records the window's handle the first time the window system reports
    /// one (`found`, never zero when present); later reports change nothing.
    pub fn capture_hwnd(&mut self, found: Option<isize>)
        requires
            found != Some(0isize),
        ensures
            final(self)@ == (if old(self)@.hwnd == 0 && found is Some {
                WinState { hwnd: found->0, ..old(self)@ }
            } else {
                old(self)@
            }),
    {
        if self.hwnd != 0 {
            return;
        }
        if let Some(h) = found {
            self.hwnd = h;
        }
    }

    /// The native window handle, once known.
    pub fn hwnd(&self) -> (h: Option<isize>)
        ensures
            h == (if self@.hwnd == 0 { None } else { Some(self@.hwnd) }),
    {
        if self.hwnd == 0 {
            None
        } else {
            Some(self.hwnd)
        }
    }

    /// Whether the user wants the window shown.
    pub fn want_visible(&self) -> (b: bool)
        ensures
            b == self@.want_visible,
    {
        self.want_visible
    }

    /// Whether quitting was requested.
    pub fn should_quit(&self) -> (b: bool)
        ensures
            b == self@.should_quit,
    {
        self.should_quit
    }

    /// Records whether the window was in front in the last frame (read
    /// before a tray click takes the focus away).
    pub fn set_was_foreground(&mut self, v: bool)
        ensures
            final(self)@ == (WinState { was_foreground: v, ..old(self)@ }),
    {
        self.was_foreground = v;
    }

    /// Whether the window counts as shown; `window_visible` is what the
    /// system reports for the window whose handle is kept here (it is not
    /// read when no handle is known).
    pub fn is_really_visible(&self, window_visible: bool) -> (b: bool)
        ensures
            b == really_visible(self@, window_visible),
    {
        if self.hwnd != 0 {
            window_visible
        } else {
            self.want_visible
        }
    }

    /// Whether the window is in front; `foreground` is the system's current
    /// foreground window (`0` for none).
    pub fn is_really_foreground(&self, foreground: isize) -> (b: bool)
        ensures
            b == (self@.hwnd != 0 && foreground != 0 && foreground == self@.hwnd),
    {
        self.hwnd != 0 && foreground != 0 && foreground == self.hwnd
    }

    /// Shows the window and brings it to the front (tray and menu call this
    /// directly).
    pub fn show(&mut self) -> (a: WinAction)
        ensures
            (final(self)@, a) == after_show(old(self)@),
    {
        self.want_visible = true;
        if self.hwnd == 0 {
            WinAction::Nothing
        } else {
            WinAction::Show { hwnd: self.hwnd }
        }
    }

    /// Hides the window.
    pub fn hide_window(&mut self) -> (a: WinAction)
        ensures
            (final(self)@, a) == after_hide(old(self)@),
    {
        self.want_visible = false;
        if self.hwnd == 0 {
            WinAction::Nothing
        } else {
            WinAction::Hide { hwnd: self.hwnd }
        }
    }

    /// Left click on the tray icon: hides the window when it is shown and
    /// was in front, else shows it. `window_visible` is as for
    /// [`WinCtl::is_really_visible`].
    pub fn toggle(&mut self, window_visible: bool) -> (a: WinAction)
        ensures
            (final(self)@, a) == after_toggle(old(self)@, window_visible),
    {
        let visible = self.want_visible() || self.is_really_visible(window_visible);
        let foreground = self.was_foreground;
        if visible && foreground {
            self.hide_window()
        } else {
            self.show()
        }
    }

    /// Asks the application to quit; dropping the tray icon is the
    /// caller's part.
    pub fn request_quit(&mut self) -> (a: WinAction)
        ensures
            (final(self)@, a) == after_quit(old(self)@),
    {
        self.should_quit = true;
        if self.hwnd == 0 {
            WinAction::Nothing
        } else {
            self.want_visible = true;
            WinAction::Close { hwnd: self.hwnd }
        }
    }
}

/// The window an action acts on, if any.
pub open spec fn action_window(a: WinAction) -> Option<isize> {
    match a {
        WinAction::Nothing => None,
        WinAction::Show { hwnd } => Some(hwnd),
        WinAction::Hide { hwnd } => Some(hwnd),
        WinAction::Close { hwnd } => Some(hwnd),
    }
}

/// Once quitting is requested it stays requested: no operation on the
/// window state clears it.
pub proof fn lemma_quit_is_sticky(s: WinState, window_visible: bool)
    requires
        s.should_quit,
    ensures
        after_show(s).0.should_quit,
        after_hide(s).0.should_quit,
        after_toggle(s, window_visible).0.should_quit,
        after_quit(s).0.should_quit,
{
}

/// Showing, hiding, toggling and quitting act only on the kept window
/// handle, act on nothing when no handle is known, and leave the handle
/// and the foreground flag as they were.
pub proof fn lemma_actions_target_kept_window(s: WinState, window_visible: bool)
    ensures
        ({
            let results = seq![after_show(s), after_hide(s), after_toggle(s, window_visible), after_quit(s)];
            forall|i: int| 0 <= i < 4 ==> {
                &&& (#[trigger] results[i]).0.hwnd == s.hwnd
                &&& results[i].0.was_foreground == s.was_foreground
                &&& action_window(results[i].1) == (if s.hwnd == 0 { None } else { Some(s.hwnd) })
            }
        }),
{
    let results = seq![after_show(s), after_hide(s), after_toggle(s, window_visible), after_quit(s)];
    assert(results[0] == after_show(s));
    assert(results[1] == after_hide(s));
    assert(results[2] == after_toggle(s, window_visible));
    assert(results[3] == after_quit(s));
}

/// A tray click on a window that the user wants shown and that was in
/// front hides it, whatever the system reports.
pub proof fn lemma_toggle_hides_front_window(s: WinState, window_visible: bool)
    requires
        s.want_visible,
        s.was_foreground,
    ensures
        after_toggle(s, window_visible) == after_hide(s),
        !after_toggle(s, window_visible).0.want_visible,
{
}

/// After the window was hidden, a tray click brings it back unless the
/// system still reports it visible and it was in front.
pub proof fn lemma_toggle_after_hide_shows(s: WinState, window_visible: bool)
    requires
        !(s.hwnd != 0 && window_visible && s.was_foreground),
    ensures
        ({
            let hidden = after_hide(s).0;
            &&& after_toggle(hidden, window_visible) == after_show(hidden)
            &&& after_toggle(hidden, window_visible).0.want_visible
        }),
{
}

/// A tray click when the window was not in front always shows it.
pub proof fn lemma_toggle_shows_background_window(s: WinState, window_visible: bool)
    requires
        !s.was_foreground,
    ensures
        after_toggle(s, window_visible) == after_show(s),
{
}

/// Only a quit request closes the window: showing, hiding and toggling
/// never do (hiding keeps the window, and so its UI loop, alive), and a
/// quit request closes it whenever its handle is known.
pub proof fn lemma_only_quit_closes(s: WinState, window_visible: bool)
    ensures
        !(after_show(s).1 is Close),
        !(after_hide(s).1 is Close),
        !(after_toggle(s, window_visible).1 is Close),
        (after_quit(s).1 is Close) == (s.hwnd != 0),
{
}

/// Showing always shows: afterwards the user wants the window shown, and
/// when a handle is known the action is to show that window, whatever the
/// window's earlier state; without a handle there is nothing to do.
pub proof fn lemma_show_shows(s: WinState)
    ensures
        after_show(s).0.want_visible,
        s.hwnd != 0 ==> after_show(s).1 == (WinAction::Show { hwnd: s.hwnd }),
        s.hwnd == 0 ==> after_show(s).1 == WinAction::Nothing,
        after_show(s).0.should_quit == s.should_quit,
{
}

/// Hiding always hides: afterwards the user does not want the window
/// shown, and when a handle is known the action is to hide that window,
/// whether or not it was in front; without a handle there is nothing to do.
pub proof fn lemma_hide_hides(s: WinState)
    ensures
        !after_hide(s).0.want_visible,
        s.hwnd != 0 ==> after_hide(s).1 == (WinAction::Hide { hwnd: s.hwnd }),
        s.hwnd == 0 ==> after_hide(s).1 == WinAction::Nothing,
        after_hide(s).0.should_quit == s.should_quit,
{
}

/// A quit request is always recorded, whatever the state before, and when a
/// handle is known the window is asked to close (and counts as wanted
/// shown, so that the close goes through).
pub proof fn lemma_quit_requested(s: WinState)
    ensures
        after_quit(s).0.should_quit,
        s.hwnd != 0 ==> after_quit(s).1 == (WinAction::Close { hwnd: s.hwnd }) && after_quit(s).0.want_visible,
        s.hwnd == 0 ==> after_quit(s).1 == WinAction::Nothing && after_quit(s).0.want_visible == s.want_visible,
{
}

} // verus!
