use zipstream::speed::SpeedTracker;

#[test]
fn no_report_before_the_interval() {
    let mut t = SpeedTracker::new(1000, 5000);
    assert!(t.sample(1001, 10).is_none());
    assert!(t.sample(5999, 500).is_none());
}

#[test]
fn report_carries_totals_and_deltas() {
    let mut t = SpeedTracker::new(1000, 5000);
    assert!(t.sample(3000, 100).is_none());
    let r = t.sample(6000, 700).expect("interval passed");
    assert_eq!(r.average_bytes, 700);
    assert_eq!(r.average_ms, 5000); // since start
    assert_eq!(r.current_bytes, 700); // since the last report (none yet)
    assert_eq!(r.current_ms, 5000);

    // The window restarts at the report.
    assert!(t.sample(10999, 900).is_none());
    let r = t.sample(11000, 900).expect("second interval passed");
    assert_eq!(r.average_bytes, 900);
    assert_eq!(r.average_ms, 10000);
    assert_eq!(r.current_bytes, 200);
    assert_eq!(r.current_ms, 5000);
}

#[test]
fn final_report_is_unconditional() {
    let mut t = SpeedTracker::new(0, 5000);
    t.sample(5000, 50).expect("first report");
    let r = t.final_sample(5001, 75);
    assert_eq!(r.average_bytes, 75);
    assert_eq!(r.average_ms, 5001);
    assert_eq!(r.current_bytes, 25);
    assert_eq!(r.current_ms, 1);
}

#[test]
fn clock_going_backwards_saturates() {
    let mut t = SpeedTracker::new(1000, 0);
    let r = t.sample(500, 0).expect("zero interval is always due");
    assert_eq!(r.current_ms, 0);
    assert_eq!(r.average_ms, 0);
}
