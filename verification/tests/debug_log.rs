use keisen::debug_log::DebugLog;

#[test]
fn enabled_log_formats_lines() {
    let mut l = DebugLog::enabled(String::from("/tmp/keisen-debug.log"));
    assert!(l.is_enabled());
    assert_eq!(l.update_tick(), 0);
    l.note_update();
    l.note_update();
    assert_eq!(l.update_tick(), 2);
    assert_eq!(
        l.log(1725029869123, "win", "set_hwnd=0x10"),
        Some(String::from("1725029869123 tick=2 [win] set_hwnd=0x10\n"))
    );
    assert_eq!(l.path_string(), "/tmp/keisen-debug.log");
    assert_eq!(l.status_text(), "log: /tmp/keisen-debug.log");
}

#[test]
fn enabled_log_header_and_open_command() {
    let l = DebugLog::enabled(String::from("C:\\Temp\\keisen-debug.log"));
    assert_eq!(
        l.init(4242),
        Some(String::from(
            "=== keisen debug log start pid=4242 ===\nlog_path=C:\\Temp\\keisen-debug.log\nhint: hide window, then tray click/menu. Check heartbeat vs tray events.\n"
        ))
    );
    assert_eq!(
        l.open_log_file(),
        Some(vec![
            String::from("/C"),
            String::from("start"),
            String::new(),
            String::from("C:\\Temp\\keisen-debug.log")
        ])
    );
}

#[test]
fn disabled_log_does_nothing() {
    let mut l = DebugLog::disabled();
    assert!(!l.is_enabled());
    l.note_update();
    assert_eq!(l.update_tick(), 0);
    assert_eq!(l.log(1, "main", "start"), None);
    assert_eq!(l.init(1), None);
    assert_eq!(l.open_log_file(), None);
    assert_eq!(l.path_string(), "");
    assert_eq!(l.status_text(), "");
}
