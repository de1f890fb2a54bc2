use keisen::input::{
    all_units_sent, encode_utf16, focus_plan, unit_sent, unit_strokes, FocusPlan,
    ForegroundTracker, KeyStroke,
};

#[test]
fn box_drawing_chars_are_one_unit_each() {
    assert_eq!(encode_utf16("├"), vec![0x251C]);
    assert_eq!(encode_utf16("├│└─┬"), vec![0x251C, 0x2502, 0x2514, 0x2500, 0x252C]);
    assert_eq!(encode_utf16(""), Vec::<u16>::new());
    assert_eq!(encode_utf16("A"), vec![0x41]);
}

#[test]
fn emoji_become_surrogate_pairs() {
    assert_eq!(encode_utf16("😀"), vec![0xD83D, 0xDE00]);
    assert_eq!(encode_utf16("\u{10FFFF}"), vec![0xDBFF, 0xDFFF]);
    assert_eq!(encode_utf16("\u{10000}"), vec![0xD800, 0xDC00]);
    // Variation selector 16 stays its own unit.
    assert_eq!(encode_utf16("❤\u{FE0F}"), vec![0x2764, 0xFE0F]);
}

#[test]
fn encoding_matches_std() {
    for text in ["罫線", "├─┬─ notes", "a😀b", "\u{FFFF}\u{10000}"] {
        let expected: Vec<u16> = text.encode_utf16().collect();
        assert_eq!(encode_utf16(text), expected);
    }
}

#[test]
fn each_unit_is_pressed_then_released() {
    let (down, up) = unit_strokes(0x2502);
    assert_eq!(down, KeyStroke { unit: 0x2502, key_up: false });
    assert_eq!(up, KeyStroke { unit: 0x2502, key_up: true });
}

#[test]
fn text_is_sent_only_when_every_unit_is() {
    assert!(unit_sent(2));
    assert!(!unit_sent(1));
    assert!(!unit_sent(0));
    assert!(all_units_sent(&vec![]));
    assert!(all_units_sent(&vec![2, 2, 2]));
    assert!(!all_units_sent(&vec![2, 0, 2]));
    assert!(!all_units_sent(&vec![1]));
}

#[test]
fn tracker_keeps_the_last_outside_window() {
    let mut t = ForegroundTracker::new();
    assert_eq!(t.focus_target(), None);
    t.track_foreground(0, 10, 1);
    assert_eq!(t.focus_target(), None);
    t.track_foreground(100, 10, 1);
    assert_eq!(t.focus_target(), Some(100));
    // Our own window and unknown processes do not replace the target.
    t.track_foreground(200, 1, 1);
    assert_eq!(t.focus_target(), Some(100));
    t.track_foreground(300, 0, 1);
    assert_eq!(t.focus_target(), Some(100));
    t.track_foreground(400, 20, 1);
    assert_eq!(t.focus_target(), Some(400));
    assert_eq!(t.target(), Some(400));
}

#[test]
fn typing_plan_focuses_the_target_then_sends_units() {
    let mut t = ForegroundTracker::new();
    let p = t.type_text_plan("┬");
    assert_eq!(p.focus, None);
    assert_eq!(p.units, vec![0x252C]);
    t.track_foreground(42, 7, 3);
    let p = t.type_text_plan("😀");
    assert_eq!(p.focus, Some(42));
    assert_eq!(p.units, vec![0xD83D, 0xDE00]);
}

#[test]
fn focus_attaches_only_to_another_thread() {
    assert_eq!(
        focus_plan(8, 3),
        FocusPlan::AttachAndSet { target_thread: 8, current_thread: 3 }
    );
    assert_eq!(focus_plan(3, 3), FocusPlan::SetOnly);
    assert_eq!(focus_plan(0, 3), FocusPlan::SetOnly);
}
