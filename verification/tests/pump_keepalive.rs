use keisen::pump_keepalive::{
    ok_message, recovered_message, stall_message, Keepalive, Report, HEARTBEAT_EVERY,
};

fn run(k: &mut Keepalive, steps: u64, tick: u64) -> Vec<Report> {
    (0..steps).map(|_| k.step(true, tick).report).collect()
}

#[test]
fn wakes_only_with_a_handle() {
    let mut k = Keepalive::new(0);
    assert!(!k.step(false, 0).wake);
    assert!(k.step(true, 0).wake);
}

#[test]
fn heartbeat_every_twenty_wakeups() {
    let mut k = Keepalive::new(0);
    let reports = run(&mut k, HEARTBEAT_EVERY - 1, 5);
    assert!(reports.iter().all(|r| *r == Report::Quiet));
    assert_eq!(k.step(true, 5).report, Report::Healthy);
    assert!(run(&mut k, HEARTBEAT_EVERY - 1, 9).iter().all(|r| *r == Report::Quiet));
    assert_eq!(k.step(true, 9).report, Report::Healthy);
}

#[test]
fn stall_is_reported_once_then_recovery() {
    let mut k = Keepalive::new(3);
    run(&mut k, HEARTBEAT_EVERY - 1, 3);
    assert_eq!(k.step(true, 3).report, Report::Stall);
    run(&mut k, HEARTBEAT_EVERY - 1, 3);
    assert_eq!(k.step(true, 3).report, Report::Quiet);
    run(&mut k, HEARTBEAT_EVERY - 1, 4);
    assert_eq!(k.step(true, 4).report, Report::Recovered);
    run(&mut k, HEARTBEAT_EVERY - 1, 8);
    assert_eq!(k.step(true, 8).report, Report::Healthy);
    run(&mut k, HEARTBEAT_EVERY - 1, 8);
    assert_eq!(k.step(true, 8).report, Report::Stall);
}

#[test]
fn keepalive_messages() {
    assert_eq!(
        stall_message(41, true, false, true),
        "STALL? update_tick stuck at 41 want_vis=true really_vis=false hwnd=true"
    );
    assert_eq!(recovered_message(42), "recovered update_tick=42");
    assert_eq!(ok_message(0, false, true), "ok tick=0 want_vis=false really_vis=true");
}
