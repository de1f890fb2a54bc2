//! Per-frame decisions of the palette window: when to log a heartbeat,
//! what closing does, which fonts each font family tries in which order,
//! and the texts of the status bar and of a button's tooltip.

use vstd::prelude::*;
use vstd::string::*;
use crate::text::{bool_text, hex_upper, push_bool, push_char, push_hex_upper};

verus! {

/// UI updates between two heartbeat lines (about two seconds at sixty
/// frames a second).
pub const HEARTBEAT_UPDATES: u64 = 120;

/// Whether to log a heartbeat: the update counter has moved on by at least
/// [`HEARTBEAT_UPDATES`] since the last heartbeat (a counter behind the
/// last heartbeat counts as not moved).
pub fn heartbeat_due(tick: u64, last: u64) -> (b: bool)
    ensures
        b == (tick >= last && tick - last >= HEARTBEAT_UPDATES),
{
    tick.saturating_sub(last) >= HEARTBEAT_UPDATES
}

/// The heartbeat line: `heartbeat want_vis={want} really_vis={visible}
/// fg={foreground}`.
pub open spec fn heartbeat_text(want: bool, visible: bool, foreground: bool) -> Seq<char> {
    "heartbeat want_vis="@ + bool_text(want) + " really_vis="@ + bool_text(visible) + " fg="@
        + bool_text(foreground)
}

/// The heartbeat line for the log.
pub fn heartbeat_message(want: bool, visible: bool, foreground: bool) -> (m: String)
    ensures
        m@ == heartbeat_text(want, visible, foreground),
{
    let mut m = String::from_str("heartbeat want_vis=");
    push_bool(&mut m, want);
    m.append(" really_vis=");
    push_bool(&mut m, visible);
    m.append(" fg=");
    push_bool(&mut m, foreground);
    m
}

/// What one frame does about closing.
#[derive(Debug, Clone, Copy, PartialEq, Eq, Structural)]
pub struct CloseActions {
    /// Drop the tray icon (removes it from the tray).
    pub drop_tray: bool,
    /// Ask the window system to close the window for real.
    pub send_close: bool,
    /// Cancel a close that the window system asked for.
    pub cancel_close: bool,
    /// Hide the window to the tray.
    pub hide_window: bool,
}

/// The closing decisions of a frame in which quitting is `should_quit`,
/// the tray icon is still held (`tray_present`) and the window system asked
/// to close the window (`close_requested`).
pub open spec fn close_plan(should_quit: bool, tray_present: bool, close_requested: bool) -> CloseActions {
    CloseActions {
        drop_tray: should_quit && tray_present,
        send_close: should_quit && tray_present,
        cancel_close: close_requested && !should_quit,
        hide_window: close_requested && !should_quit,
    }
}

/// The frame's closing decisions: quitting (from the tray menu) drops the
/// tray icon and closes the window once; the window's own close button or
/// Alt+F4 only hides it to the tray unless quitting was requested.
pub fn close_actions(should_quit: bool, tray_present: bool, close_requested: bool) -> (a: CloseActions)
    ensures
        a == close_plan(should_quit, tray_present, close_requested),
{
    let mut a = CloseActions { drop_tray: false, send_close: false, cancel_close: false, hide_window: false };
    let mut tray = tray_present;
    if should_quit {
        if tray {
            tray = false;
            a.drop_tray = true;
            a.send_close = true;
        }
    }
    if close_requested {
        if should_quit {
            if tray {
                a.drop_tray = true;
            }
        } else {
            a.cancel_close = true;
            a.hide_window = true;
        }
    }
    a
}

/// The window is closed for real only when quitting was requested; a
/// close request without it is always cancelled and turned into hiding.
pub proof fn lemma_close_only_on_quit(should_quit: bool, tray_present: bool, close_requested: bool)
    ensures
        ({
            let a = close_plan(should_quit, tray_present, close_requested);
            &&& a.send_close ==> should_quit
            &&& a.drop_tray ==> should_quit
            &&& (close_requested && !should_quit) ==> a.cancel_close && a.hide_window && !a.send_close
            &&& !(a.send_close && a.cancel_close)
            &&& !tray_present ==> !a.send_close
        }),
{
}

/// The characters of each name.
pub open spec fn names(v: Seq<String>) -> Seq<Seq<char>> {
    v.map_values(|s: String| s@)
}

/// `base`, then each name of `extra` that is not already listed, in order.
pub open spec fn append_missing(base: Seq<Seq<char>>, extra: Seq<Seq<char>>) -> Seq<Seq<char>>
    decreases extra.len(),
{
    if extra.len() == 0 {
        base
    } else {
        let r = append_missing(base, extra.drop_last());
        if r.contains(extra.last()) {
            r
        } else {
            r.push(extra.last())
        }
    }
}

fn contains_name(list: &Vec<String>, name: &String) -> (b: bool)
    ensures
        b == names(list@).contains(name@),
{
    let mut i: usize = 0;
    while i < list.len()
        invariant
            i <= list@.len(),
            forall|j: int| 0 <= j < i ==> list@[j]@ != name@,
        decreases list@.len() - i,
    {
        if list[i] == *name {
            assert(names(list@)[i as int] == name@);
            return true;
        }
        i = i + 1;
    }
    proof {
        if names(list@).contains(name@) {
            let k = choose|k: int| 0 <= k < names(list@).len() && names(list@)[k] == name@;
            assert(list@[k]@ == name@);
        }
    }
    false
}

/// `base`, then each name of `extra` not yet listed.
pub fn append_missing_names(base: &Vec<String>, extra: &Vec<String>) -> (r: Vec<String>)
    ensures
        names(r@) == append_missing(names(base@), names(extra@)),
{
    let mut r: Vec<String> = base.clone();
    proof {
        assert(names(r@) =~= names(base@)) by {
            assert forall|j: int| 0 <= j < r@.len() implies r@[j]@ == base@[j]@ by {
                assert(r@[j] == base@[j]);
            }
        }
        assert(names(extra@).take(0) =~= Seq::<Seq<char>>::empty());
    }
    let mut i: usize = 0;
    while i < extra.len()
        invariant
            i <= extra@.len(),
            names(r@) == append_missing(names(base@), names(extra@).take(i as int)),
        decreases extra@.len() - i,
    {
        let ghost before = names(r@);
        let present = contains_name(&r, &extra[i]);
        if !present {
            r.push(extra[i].clone());
            assert(names(r@) =~= before.push(extra@[i as int]@));
        }
        proof {
            let t = names(extra@).take(i + 1);
            assert(t.drop_last() =~= names(extra@).take(i as int));
            assert(t.last() == extra@[i as int]@);
        }
        i = i + 1;
    }
    proof {
        assert(names(extra@).take(extra@.len() as int) =~= names(extra@));
    }
    r
}

/// The font families of the palette.
#[derive(Debug)]
pub struct FontFamilies {
    /// Proportional text (labels): Japanese fonts first, then box-drawing
    /// fonts.
    pub proportional: Vec<String>,
    /// Monospace text and the box-drawing buttons: box-drawing fonts
    /// first, then Japanese fonts.
    pub monospace: Vec<String>,
}

/// The families built from the system fonts that could be read: names of
/// box-drawing fonts and of Japanese fonts, each in order of preference.
/// `None` when no font at all could be read (the palette cannot start).
pub fn font_families(box_names: &Vec<String>, jp_names: &Vec<String>) -> (f: Option<FontFamilies>)
    ensures
        f is None == (box_names@.len() == 0 && jp_names@.len() == 0),
        f matches Some(ff) ==> {
            &&& names(ff.proportional@) == append_missing(names(jp_names@), names(box_names@))
            &&& names(ff.monospace@) == append_missing(names(box_names@), names(jp_names@))
        },
{
    if box_names.len() == 0 && jp_names.len() == 0 {
        return None;
    }
    let proportional = append_missing_names(jp_names, box_names);
    let monospace = append_missing_names(box_names, jp_names);
    Some(FontFamilies { proportional, monospace })
}

/// A family starts with its preferred fonts in order, then holds every
/// other font too, and holds only those fonts; it repeats no font when its
/// preferred list repeats none.
pub proof fn lemma_append_missing(base: Seq<Seq<char>>, extra: Seq<Seq<char>>)
    ensures
        append_missing(base, extra).len() >= base.len(),
        append_missing(base, extra).take(base.len() as int) == base,
        forall|x: Seq<char>| base.contains(x) || extra.contains(x) ==> #[trigger] append_missing(base, extra).contains(x),
        forall|x: Seq<char>| #[trigger] append_missing(base, extra).contains(x) ==> base.contains(x) || extra.contains(x),
        base.no_duplicates() ==> append_missing(base, extra).no_duplicates(),
    decreases extra.len(),
{
    if extra.len() == 0 {
        assert(base.take(base.len() as int) =~= base);
    } else {
        let e = extra.drop_last();
        lemma_append_missing(base, e);
        let r = append_missing(base, e);
        if !r.contains(extra.last()) {
            let r2 = r.push(extra.last());
            assert(r2.take(base.len() as int) =~= r.take(base.len() as int));
            assert forall|x: Seq<char>| base.contains(x) || extra.contains(x) implies #[trigger] r2.contains(x) by {
                if extra.contains(x) && x != extra.last() {
                    let k = choose|k: int| 0 <= k < extra.len() && extra[k] == x;
                    assert(e[k] == x);
                }
                if x == extra.last() {
                    assert(r2[r.len() as int] == x);
                } else {
                    assert(r.contains(x));
                    let k = choose|k: int| 0 <= k < r.len() && r[k] == x;
                    assert(r2[k] == x);
                }
            }
            assert forall|x: Seq<char>| #[trigger] r2.contains(x) implies base.contains(x) || extra.contains(x) by {
                let k = choose|k: int| 0 <= k < r2.len() && r2[k] == x;
                if k == r.len() {
                    assert(extra[extra.len() - 1] == x);
                } else {
                    assert(r[k] == x);
                    assert(r.contains(x));
                    if e.contains(x) {
                        let m = choose|m: int| 0 <= m < e.len() && e[m] == x;
                        assert(extra[m] == x);
                    }
                }
            }
            if base.no_duplicates() {
                assert forall|i: int, j: int| 0 <= i < r2.len() && 0 <= j < r2.len() && i != j implies r2[i] != r2[j] by {
                    if i < r.len() && j < r.len() {
                        assert(r2[i] == r[i] && r2[j] == r[j]);
                    } else if i == r.len() {
                        assert(r2[j] == r[j]);
                    } else {
                        assert(r2[i] == r[i]);
                    }
                }
            }
        } else {
            assert forall|x: Seq<char>| base.contains(x) || extra.contains(x) implies #[trigger] r.contains(x) by {
                if extra.contains(x) && x != extra.last() {
                    let k = choose|k: int| 0 <= k < extra.len() && extra[k] == x;
                    assert(e[k] == x);
                }
            }
            assert forall|x: Seq<char>| #[trigger] r.contains(x) implies base.contains(x) || extra.contains(x) by {
                if e.contains(x) {
                    let m = choose|m: int| 0 <= m < e.len() && e[m] == x;
                    assert(extra[m] == x);
                }
            }
        }
    }
}

/// Status text after a button click: `入力: {ch}` when the character was
/// sent, else `送信失敗: {ch}`.
pub open spec fn status_text(ok: bool, ch: char) -> Seq<char> {
    if ok { "入力: "@.push(ch) } else { "送信失敗: "@.push(ch) }
}

/// The status text after clicking the button of `ch`.
pub fn status_message(ok: bool, ch: char) -> (s: String)
    ensures
        s@ == status_text(ok, ch),
{
    let mut s = if ok { String::from_str("入力: ") } else { String::from_str("送信失敗: ") };
    push_char(&mut s, ch);
    s
}

/// Tooltip of a character button: the character, two spaces, and its code
/// point as `U+` and at least four upper-case hexadecimal digits.
pub open spec fn tooltip_text(ch: char) -> Seq<char> {
    seq![ch] + "  U+"@ + hex_upper(ch as u32 as nat, 4)
}

/// The tooltip of the button of `ch`.
pub fn char_tooltip(ch: char) -> (s: String)
    ensures
        s@ == tooltip_text(ch),
{
    let mut s = String::new();
    push_char(&mut s, ch);
    s.append("  U+");
    push_hex_upper(&mut s, ch as u32 as u128, 4);
    assert(s@ =~= tooltip_text(ch));
    s
}

} // verus!
