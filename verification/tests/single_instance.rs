use keisen::single_instance::{
    existing_window, is_hwnd_foreground, mutex_name_wide, show_command, to_wide_null,
    try_acquire, window_title_wide, Acquire, ShowCommand, WINDOW_TITLE,
};

#[test]
fn first_instance_holds_the_mutex() {
    assert_eq!(try_acquire(true, false), Acquire::ProceedHolding);
    assert!(try_acquire(true, false).proceeds());
}

#[test]
fn second_instance_exits() {
    assert_eq!(try_acquire(true, true), Acquire::AlreadyRunning);
    assert!(!try_acquire(true, true).proceeds());
}

#[test]
fn failed_mutex_still_starts() {
    assert_eq!(try_acquire(false, false), Acquire::ProceedUnguarded);
    assert_eq!(try_acquire(false, true), Acquire::ProceedUnguarded);
    assert!(try_acquire(false, true).proceeds());
}

#[test]
fn minimized_window_is_restored() {
    assert_eq!(show_command(true), ShowCommand::Restore);
    assert_eq!(show_command(false), ShowCommand::Show);
}

#[test]
fn foreground_comparison() {
    assert!(is_hwnd_foreground(12, 12));
    assert!(!is_hwnd_foreground(12, 13));
    assert!(!is_hwnd_foreground(0, 0));
}

#[test]
fn existing_window_must_be_real() {
    assert_eq!(existing_window(Some(5)), Some(5));
    assert_eq!(existing_window(Some(0)), None);
    assert_eq!(existing_window(None), None);
}

#[test]
fn wide_strings_are_null_terminated() {
    assert_eq!(WINDOW_TITLE, "罫線");
    assert_eq!(window_title_wide(), vec![0x7F6B, 0x7DDA, 0]);
    assert_eq!(to_wide_null(""), vec![0]);
    let expected: Vec<u16> = "Local\\keisen_single_instance_v1"
        .encode_utf16()
        .chain(std::iter::once(0))
        .collect();
    assert_eq!(mutex_name_wide(), expected);
}
