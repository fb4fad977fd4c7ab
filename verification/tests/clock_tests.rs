use rust64_debug::clock::{Clock, ClockReport, DEBUG_CLK};

#[test]
fn new_clock_starts_at_zero() {
    let c = Clock::new();
    assert_eq!(c.cycle(), 0);
    assert_eq!(c.error_counts(), [0u64; 20]);
    assert_eq!(c.sleep_sum(), 0);
    assert_eq!(c.report_mark(), 0);
}

#[test]
fn tick_without_change_does_nothing() {
    let mut c = Clock::new();
    let t = c.tick(0);
    assert!(!t.advanced);
    assert_eq!(t.report, None);
    assert_eq!(c.cycle(), 0);
    assert_eq!(c.error_counts(), [0u64; 20]);
    assert_eq!(c.sleep_sum(), 0);
}

#[test]
fn tick_files_skipped_cycles_in_buckets() {
    let mut c = Clock::new();
    let t = c.tick(1);
    assert!(t.advanced);
    assert_eq!(t.report, None);
    let t = c.tick(5);
    assert!(t.advanced);
    let t = c.tick(100);
    assert!(t.advanced);
    let mut expected = [0u64; 20];
    expected[0] = 1;
    expected[3] = 1;
    expected[19] = 1;
    assert_eq!(c.error_counts(), expected);
    assert_eq!(c.sleep_sum(), 3 + 94);
    assert_eq!(c.cycle(), 100);
    // every cycle since the start is an advance or a skipped cycle
    let total: u64 = c.error_counts().iter().sum::<u64>() + c.sleep_sum();
    assert_eq!(total, 100);
}

#[test]
fn skip_of_nineteen_goes_to_last_bucket() {
    let mut c = Clock::new();
    c.tick(20);
    let mut expected = [0u64; 20];
    expected[19] = 1;
    assert_eq!(c.error_counts(), expected);
    assert_eq!(c.sleep_sum(), 19);
    let mut c = Clock::new();
    c.tick(19);
    let mut expected = [0u64; 20];
    expected[18] = 1;
    assert_eq!(c.error_counts(), expected);
}

#[test]
fn report_falls_due_after_debug_period() {
    let mut c = Clock::new();
    c.tick(1);
    c.tick(5);
    c.tick(100);
    let t = c.tick(DEBUG_CLK);
    assert!(t.advanced);
    assert_eq!(t.report, None);
    assert_eq!(c.sleep_sum(), 1477868);
    let t = c.tick(DEBUG_CLK + 1);
    assert!(t.advanced);
    let mut errors = [0u64; 20];
    errors[0] = 2;
    errors[3] = 1;
    errors[19] = 2;
    assert_eq!(t.report, Some(ClockReport { errors, sleep_sum: 1477868 }));
    assert_eq!(c.error_counts(), [0u64; 20]);
    assert_eq!(c.sleep_sum(), 0);
    assert_eq!(c.report_mark(), DEBUG_CLK);
    assert_eq!(c.cycle(), DEBUG_CLK + 1);
    let r = t.report.unwrap();
    assert_eq!(r.sleep_sum + r.errors.iter().sum::<u64>(), DEBUG_CLK + 1);
}

#[test]
fn debug_period_is_one_and_a_half_pal_seconds() {
    assert_eq!(DEBUG_CLK, (1.5 * 985248.0) as u64);
}
