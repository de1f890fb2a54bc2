//! What is typed into the target window: the UTF-16 units of a text, the
//! key-down/key-up pair sent for each unit, and which foreground window
//! is remembered as the target.

use vstd::prelude::*;

verus! {

/// The UTF-16 code units of one character: one unit below U+10000, else a
/// surrogate pair.
pub open spec fn utf16_char(c: char) -> Seq<u16> {
    let v = c as u32 as int;
    if v < 0x10000 {
        seq![v as u16]
    } else {
        let u = v - 0x10000;
        seq![(0xD800 + u / 0x400) as u16, (0xDC00 + u % 0x400) as u16]
    }
}

/// The UTF-16 code units of a sequence of characters.
pub open spec fn utf16(s: Seq<char>) -> Seq<u16>
    decreases s.len(),
{
    if s.len() == 0 {
        seq![]
    } else {
        utf16(s.drop_last()) + utf16_char(s.last())
    }
}

/// The encoding of a concatenation is the concatenation of the encodings.
pub proof fn lemma_utf16_concat(a: Seq<char>, b: Seq<char>)
    ensures
        utf16(a + b) == utf16(a) + utf16(b),
    decreases b.len(),
{
    if b.len() == 0 {
        assert(a + b =~= a);
        assert(utf16(a) + utf16(b) =~= utf16(a));
    } else {
        lemma_utf16_concat(a, b.drop_last());
        assert((a + b).drop_last() =~= a + b.drop_last());
        assert((a + b).last() == b.last());
        assert(utf16(a + b) =~= utf16(a) + utf16(b));
    }
}

/// Each character becomes one unit below U+10000 (the unit is its code
/// point) and otherwise a high surrogate followed by a low surrogate, from
/// which the code point is recovered.
pub proof fn lemma_utf16_char_roundtrip(c: char)
    ensures
        (c as u32) < 0x10000 ==> utf16_char(c).len() == 1 && utf16_char(c)[0] as u32 == c as u32,
        (c as u32) >= 0x10000 ==> {
            let hi = utf16_char(c)[0] as int;
            let lo = utf16_char(c)[1] as int;
            &&& utf16_char(c).len() == 2
            &&& 0xD800 <= hi < 0xDC00
            &&& 0xDC00 <= lo < 0xE000
            &&& 0x10000 + (hi - 0xD800) * 0x400 + (lo - 0xDC00) == c as u32
        },
{
    let v = c as u32 as int;
    assert(v <= 0x10FFFF);
    if v >= 0x10000 {
        let u = v - 0x10000;
        assert(u / 0x400 < 0x400);
        assert(u == (u / 0x400) * 0x400 + u % 0x400);
    }
}

/// Appends the UTF-16 units of `c`.
pub fn push_utf16_char(units: &mut Vec<u16>, c: char)
    ensures
        final(units)@ == old(units)@ + utf16_char(c),
{
    let v: u32 = c as u32;
    if v < 0x10000 {
        units.push(v as u16);
    } else {
        let u: u32 = v - 0x10000;
        assert(u < 0x100000);
        units.push((0xD800 + u / 0x400) as u16);
        units.push((0xDC00 + u % 0x400) as u16);
    }
    assert(units@ =~= old(units)@ + utf16_char(c));
}

/// The UTF-16 code units of `text`, in order (surrogate pairs for
/// characters beyond U+FFFF, variation selectors as their own unit).
pub fn encode_utf16(text: &str) -> (units: Vec<u16>)
    ensures
        units@ == utf16(text@),
{
    let mut units: Vec<u16> = Vec::new();
    let ghost chars = text@;
    for c in it: text.chars()
        invariant
            it.seq() == chars,
            units@ == utf16(chars.take(it.index() as int)),
    {
        proof {
            let i = it.index() as int;
            assert(chars.take(i + 1).drop_last() =~= chars.take(i));
            assert(chars.take(i + 1).last() == chars[i]);
        }
        push_utf16_char(&mut units, c);
    }
    proof {
        assert(chars.take(chars.len() as int) =~= chars);
    }
    units
}

/// One keyboard event carrying a UTF-16 unit (the system's Unicode
/// keyboard-input mode), pressed or released.
#[derive(Debug, Clone, Copy, PartialEq, Eq, Structural)]
pub struct KeyStroke {
    pub unit: u16,
    pub key_up: bool,
}

/// The number of events sent for one unit: its key-down and its key-up.
pub const EVENTS_PER_UNIT: u32 = 2;

/// The pair of events that types one UTF-16 unit: key down, then key up.
pub fn unit_strokes(unit: u16) -> (pair: (KeyStroke, KeyStroke))
    ensures
        pair.0 == (KeyStroke { unit, key_up: false }),
        pair.1 == (KeyStroke { unit, key_up: true }),
{
    (KeyStroke { unit, key_up: false }, KeyStroke { unit, key_up: true })
}

/// Whether the system accepted both events of a unit; `sent` is the count
/// it reports as inserted.
pub fn unit_sent(sent: u32) -> (ok: bool)
    ensures
        ok == (sent == EVENTS_PER_UNIT),
{
    sent == EVENTS_PER_UNIT
}

/// Whether typing a text succeeded: every unit is sent (a failure does not
/// stop the later units) and the text succeeds only if each of them was
/// fully accepted. `sent[i]` is the count reported for unit `i`.
pub fn all_units_sent(sent: &Vec<u32>) -> (ok: bool)
    ensures
        ok == (forall|i: int| 0 <= i < sent@.len() ==> sent@[i] == EVENTS_PER_UNIT),
{
    let mut ok = true;
    let mut i: usize = 0;
    while i < sent.len()
        invariant
            i <= sent@.len(),
            ok == (forall|j: int| 0 <= j < i ==> sent@[j] == EVENTS_PER_UNIT),
        decreases sent@.len() - i,
    {
        let this = unit_sent(sent[i]);
        ok = ok && this;
        i = i + 1;
    }
    ok
}

/// The last window outside this process that was in front: the window that
/// the palette types into.
#[derive(Debug)]
pub struct ForegroundTracker {
    target: Option<isize>,
}

impl View for ForegroundTracker {
    type V = Option<isize>;

    closed spec fn view(&self) -> Option<isize> {
        self.target
    }
}

/// Whether a foreground window `hwnd` owned by process `pid` is a typing
/// target, seen from process `own_pid`: a real window of another process.
pub open spec fn is_outside_window(hwnd: isize, pid: u32, own_pid: u32) -> bool {
    hwnd != 0 && pid != 0 && pid != own_pid
}

/// The target after seeing foreground window `hwnd` of process `pid`.
pub open spec fn tracked_target(before: Option<isize>, hwnd: isize, pid: u32, own_pid: u32) -> Option<isize> {
    if is_outside_window(hwnd, pid, own_pid) {
        Some(hwnd)
    } else {
        before
    }
}

impl ForegroundTracker {
    /// A recorded target is never the null window.
    #[verifier::type_invariant]
    spec fn target_not_null(self) -> bool {
        self.target matches Some(h) ==> h != 0
    }

    /// No target yet.
    pub fn new() -> (t: ForegroundTracker)
        ensures
            t@ == None::<isize>,
    {
        ForegroundTracker { target: None }
    }

    /// Records the current foreground window as the target when it belongs
    /// to another process; otherwise keeps the previous target.
    pub fn track_foreground(&mut self, hwnd: isize, pid: u32, own_pid: u32)
        ensures
            final(self)@ == tracked_target(old(self)@, hwnd, pid, own_pid),
    {
        if hwnd == 0 {
            return;
        }
        if pid == 0 || pid == own_pid {
            return;
        }
        self.target = Some(hwnd);
    }

    /// The recorded target. In every state of a tracker it is either none
    /// or a non-null window (each recorded one belonged, when recorded, to
    /// another process: see [`ForegroundTracker::track_foreground`]).
    pub fn target(&self) -> (t: Option<isize>)
        ensures
            t == self@,
            t matches Some(h) ==> h != 0,
    {
        proof {
            use_type_invariant(self);
        }
        self.target
    }

    /// The window to focus before typing: the recorded target, if any and
    /// not null.
    pub fn focus_target(&self) -> (t: Option<isize>)
        ensures
            t == (match self@ {
                Some(h) => if h != 0 { Some(h) } else { None },
                None => None,
            }),
    {
        match self.target {
            Some(h) => if h != 0 { Some(h) } else { None },
            None => None,
        }
    }
}

/// How to bring the target window to the front.
#[derive(Debug, Clone, Copy, PartialEq, Eq, Structural)]
pub enum FocusPlan {
    /// Attach this thread's input to the target's thread, set the
    /// foreground window, then detach.
    AttachAndSet { target_thread: u32, current_thread: u32 },
    /// Set the foreground window directly.
    SetOnly,
}

/// The plan for focusing a window owned by `target_thread` from
/// `current_thread`: attach only to another, known thread.
pub fn focus_plan(target_thread: u32, current_thread: u32) -> (p: FocusPlan)
    ensures
        p == (if target_thread != 0 && target_thread != current_thread {
            FocusPlan::AttachAndSet { target_thread, current_thread }
        } else {
            FocusPlan::SetOnly
        }),
{
    if target_thread != 0 && target_thread != current_thread {
        FocusPlan::AttachAndSet { target_thread, current_thread }
    } else {
        FocusPlan::SetOnly
    }
}

/// The tracker never takes a window of this process as the target, and
/// once it has a target it keeps one.
pub proof fn lemma_tracker_targets_outside_windows(
    before: Option<isize>,
    hwnd: isize,
    pid: u32,
    own_pid: u32,
)
    requires
        before matches Some(h) ==> h != 0,
    ensures
        tracked_target(before, hwnd, pid, own_pid) matches Some(h) ==> h != 0,
        pid == own_pid ==> tracked_target(before, hwnd, pid, own_pid) == before,
        before is Some ==> tracked_target(before, hwnd, pid, own_pid) is Some,
{
}

/// What typing a text does: the window to focus first (the recorded
/// target; after focusing, the caller waits briefly so that editors settle),
/// and the UTF-16 units to send, one key-down/key-up pair each.
#[derive(Debug)]
pub struct TypingPlan {
    pub focus: Option<isize>,
    pub units: Vec<u16>,
}

impl ForegroundTracker {
    /// The plan for typing `text` into the recorded target window (a single
    /// character, or an emoji of several code points or a surrogate pair).
    pub fn type_text_plan(&self, text: &str) -> (p: TypingPlan)
        ensures
            p.focus == (match self@ {
                Some(h) => if h != 0 { Some(h) } else { None },
                None => None,
            }),
            p.units@ == utf16(text@),
    {
        let focus = self.focus_target();
        let units = encode_utf16(text);
        TypingPlan { focus, units }
    }
}

/// Every non-null foreground window of another known process becomes the
/// target, whatever the process ids' order; a null window, process id 0 or
/// this process's own window leaves the target as it was.
pub proof fn lemma_outside_window_becomes_target(before: Option<isize>, hwnd: isize, pid: u32, own_pid: u32)
    ensures
        hwnd != 0 && pid != 0 && pid != own_pid ==> tracked_target(before, hwnd, pid, own_pid) == Some(hwnd),
        hwnd == 0 || pid == 0 || pid == own_pid ==> tracked_target(before, hwnd, pid, own_pid) == before,
{
}

/// A single character encodes as its UTF-16 form: its code point as one
/// unit below U+10000, else the high surrogate `0xD800 + (v - 0x10000) / 0x400`
/// followed by the low surrogate `0xDC00 + (v - 0x10000) % 0x400`.
pub proof fn lemma_utf16_single_char(c: char)
    ensures
        (c as u32) < 0x10000 ==> utf16(seq![c]) == seq![c as u32 as u16],
        (c as u32) >= 0x10000 ==> utf16(seq![c]) == seq![
            (0xD800 + (c as u32 - 0x10000) / 0x400) as u16,
            (0xDC00 + (c as u32 - 0x10000) % 0x400) as u16,
        ],
        utf16(seq![c]) == utf16_char(c),
{
    assert(seq![c].drop_last() =~= Seq::<char>::empty());
    assert(utf16(Seq::<char>::empty()) =~= Seq::<u16>::empty());
    assert(utf16(seq![c]) =~= utf16_char(c));
}

} // verus!
