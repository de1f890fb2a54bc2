use keisen::win_ctl::{WinAction, WinCtl};

#[test]
fn new_window_wants_to_be_shown() {
    let w = WinCtl::new();
    assert_eq!(w.hwnd(), None);
    assert!(w.want_visible());
    assert!(!w.should_quit());
    // Without a handle the user's wish decides.
    assert!(w.is_really_visible(false));
    assert!(!w.is_really_foreground(0x1234));
}

#[test]
fn handle_is_kept() {
    let mut w = WinCtl::new();
    w.set_hwnd(0x1234);
    assert_eq!(w.hwnd(), Some(0x1234));
    assert!(w.is_really_foreground(0x1234));
    assert!(!w.is_really_foreground(0x9999));
    assert!(!w.is_really_foreground(0));
    // With a handle the system's answer decides.
    assert!(!w.is_really_visible(false));
    assert!(w.is_really_visible(true));
    w.set_hwnd(0);
    assert_eq!(w.hwnd(), None);
}

#[test]
fn show_and_hide_without_handle_do_nothing_to_a_window() {
    let mut w = WinCtl::new();
    assert_eq!(w.hide_window(), WinAction::Nothing);
    assert!(!w.want_visible());
    assert!(!w.is_really_visible(true));
    assert_eq!(w.show(), WinAction::Nothing);
    assert!(w.want_visible());
}

#[test]
fn show_and_hide_act_on_the_handle() {
    let mut w = WinCtl::new();
    w.set_hwnd(77);
    assert_eq!(w.hide_window(), WinAction::Hide { hwnd: 77 });
    assert!(!w.want_visible());
    assert_eq!(w.show(), WinAction::Show { hwnd: 77 });
    assert!(w.want_visible());
}

#[test]
fn toggle_hides_a_front_window_and_shows_it_again() {
    let mut w = WinCtl::new();
    w.set_hwnd(5);
    w.set_was_foreground(true);
    assert_eq!(w.toggle(true), WinAction::Hide { hwnd: 5 });
    assert!(!w.want_visible());
    // Now hidden: the system reports it invisible, so the next click shows it.
    assert_eq!(w.toggle(false), WinAction::Show { hwnd: 5 });
    assert!(w.want_visible());
}

#[test]
fn toggle_brings_a_background_window_forward() {
    let mut w = WinCtl::new();
    w.set_hwnd(5);
    w.set_was_foreground(false);
    assert_eq!(w.toggle(true), WinAction::Show { hwnd: 5 });
    assert!(w.want_visible());
}

#[test]
fn toggle_hides_when_only_the_system_reports_it_visible() {
    let mut w = WinCtl::new();
    w.set_hwnd(5);
    let _ = w.hide_window();
    w.set_was_foreground(true);
    assert_eq!(w.toggle(true), WinAction::Hide { hwnd: 5 });
}

#[test]
fn request_quit_closes_the_window() {
    let mut w = WinCtl::new();
    w.set_hwnd(9);
    let _ = w.hide_window();
    assert_eq!(w.request_quit(), WinAction::Close { hwnd: 9 });
    assert!(w.should_quit());
    assert!(w.want_visible());
    // Quitting stays requested.
    let _ = w.hide_window();
    let _ = w.toggle(false);
    assert!(w.should_quit());
}

#[test]
fn request_quit_without_handle_only_records_it() {
    let mut w = WinCtl::new();
    let _ = w.hide_window();
    assert_eq!(w.request_quit(), WinAction::Nothing);
    assert!(w.should_quit());
    assert!(!w.want_visible());
}

#[test]
fn first_captured_handle_stays() {
    let mut w = WinCtl::new();
    w.capture_hwnd(None);
    assert_eq!(w.hwnd(), None);
    w.capture_hwnd(Some(0x42));
    assert_eq!(w.hwnd(), Some(0x42));
    w.capture_hwnd(Some(0x43));
    assert_eq!(w.hwnd(), Some(0x42));
}
