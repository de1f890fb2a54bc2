use keisen::ui::{
    append_missing_names, char_tooltip, close_actions, font_families, heartbeat_due,
    heartbeat_message,
    status_message, CloseActions,
};

fn strings(v: &[&str]) -> Vec<String> {
    v.iter().map(|s| s.to_string()).collect()
}

#[test]
fn heartbeat_after_120_updates() {
    assert!(!heartbeat_due(0, 0));
    assert!(!heartbeat_due(119, 0));
    assert!(heartbeat_due(120, 0));
    assert!(heartbeat_due(500, 200));
    assert!(!heartbeat_due(5, 200));
}

#[test]
fn close_button_hides_instead_of_quitting() {
    assert_eq!(
        close_actions(false, true, true),
        CloseActions { drop_tray: false, send_close: false, cancel_close: true, hide_window: true }
    );
    assert_eq!(
        close_actions(false, true, false),
        CloseActions { drop_tray: false, send_close: false, cancel_close: false, hide_window: false }
    );
}

#[test]
fn quit_drops_tray_and_closes_once() {
    assert_eq!(
        close_actions(true, true, false),
        CloseActions { drop_tray: true, send_close: true, cancel_close: false, hide_window: false }
    );
    assert_eq!(
        close_actions(true, true, true),
        CloseActions { drop_tray: true, send_close: true, cancel_close: false, hide_window: false }
    );
    // Tray already dropped in an earlier frame: the close goes through.
    assert_eq!(
        close_actions(true, false, true),
        CloseActions { drop_tray: false, send_close: false, cancel_close: false, hide_window: false }
    );
}

#[test]
fn font_families_order() {
    let boxes = strings(&["cascadia_mono", "consolas"]);
    let jp = strings(&["yu_gothic", "meiryo"]);
    let f = font_families(&boxes, &jp).unwrap();
    assert_eq!(f.proportional, strings(&["yu_gothic", "meiryo", "cascadia_mono", "consolas"]));
    assert_eq!(f.monospace, strings(&["cascadia_mono", "consolas", "yu_gothic", "meiryo"]));
}

#[test]
fn font_families_with_one_kind_only() {
    let f = font_families(&strings(&[]), &strings(&["meiryo"])).unwrap();
    assert_eq!(f.proportional, strings(&["meiryo"]));
    assert_eq!(f.monospace, strings(&["meiryo"]));
    assert!(font_families(&strings(&[]), &strings(&[])).is_none());
}

#[test]
fn missing_names_are_appended_once() {
    let r = append_missing_names(&strings(&["a", "b"]), &strings(&["b", "c", "c", "a", "d"]));
    assert_eq!(r, strings(&["a", "b", "c", "d"]));
}

#[test]
fn status_and_tooltip_texts() {
    assert_eq!(status_message(true, '├'), "入力: ├");
    assert_eq!(status_message(false, '┨'), "送信失敗: ┨");
    assert_eq!(char_tooltip('├'), "├  U+251C");
    assert_eq!(char_tooltip('A'), "A  U+0041");
    assert_eq!(char_tooltip('😀'), "😀  U+1F600");
}

#[test]
fn heartbeat_line() {
    assert_eq!(
        heartbeat_message(true, false, true),
        "heartbeat want_vis=true really_vis=false fg=true"
    );
}
