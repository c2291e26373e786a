use bunkr_spider::printer::EguiPrinter;
use bunkr_spider::retry::backoff_secs;
use bunkr_spider::retry::next_attempt;
use bunkr_spider::retry::RetryDecision;
use bunkr_spider::speed::SpeedGuard;

#[test]
fn backoff_doubles_per_retry() {
    assert_eq!(backoff_secs(0), 0);
    assert_eq!(backoff_secs(1), 2);
    assert_eq!(backoff_secs(2), 4);
    assert_eq!(backoff_secs(3), 8);
}

#[test]
fn cancellation_wins_over_budget() {
    assert!(matches!(next_attempt(0, true), RetryDecision::Stop));
    assert!(matches!(next_attempt(4, true), RetryDecision::Stop));
}

#[test]
fn budget_runs_out_after_four_attempts() {
    assert!(matches!(next_attempt(3, false), RetryDecision::Proceed { delay_secs: 8 }));
    assert!(matches!(next_attempt(4, false), RetryDecision::GiveUp));
}

#[test]
fn speed_guard_grace_period() {
    let mut guard = SpeedGuard::new(1000);
    assert!(guard.record_chunk(10, 0));
    assert!(guard.record_chunk(10, 2));
    assert_eq!(guard.received, 20);
}

#[test]
fn speed_guard_aborts_slow_transfer() {
    let mut guard = SpeedGuard::new(1000);
    assert!(guard.record_chunk(5000, 1));
    assert!(!guard.record_chunk(10, 10));
}

#[test]
fn speed_guard_passes_fast_transfer() {
    let mut guard = SpeedGuard::new(1000);
    assert!(guard.record_chunk(100_000, 4));
    assert!(guard.final_check(4));
}

#[test]
fn speed_guard_final_check_floors_elapsed_to_one_second() {
    let guard = SpeedGuard::new(1000);
    assert!(!guard.final_check(0));
    let mut fast = SpeedGuard::new(1000);
    assert!(fast.record_chunk(1000, 0));
    assert!(fast.final_check(0));
}

#[test]
fn zero_floor_disables_the_stall_check() {
    let mut guard = SpeedGuard::new(0);
    assert!(guard.record_chunk(0, 100));
    assert!(guard.final_check(100));
}

#[test]
fn printer_appends_and_clears() {
    let mut printer = EguiPrinter::new();
    printer.print("album title: ");
    printer.println("Holiday");
    printer.println("find 2 sources");
    assert_eq!(printer.contents().as_str(), "album title: Holiday\nfind 2 sources\n");
    printer.clear();
    assert_eq!(printer.contents().as_str(), "");
}
