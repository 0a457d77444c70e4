use gamerboy::CycleTime;

#[test]
fn micros() {
    let ct = CycleTime::new(32768, 3);
    assert_eq!(ct.micros(), 92);
}

#[test]
fn micros_is_deterministic() {
    let a = CycleTime::new(32768, 3);
    let b = CycleTime::new(32768, 3);
    assert_eq!(a.micros(), b.micros());
    assert_eq!(a.micros(), 92);
}

#[test]
fn micros_rounds_to_nearest() {
    // 1 cycle at 1 MHz is exactly 1 microsecond.
    assert_eq!(CycleTime::new(1_000_000, 1).micros(), 1);
    // 1 cycle at 4194304 Hz is 0.238... microseconds, rounding to 0.
    assert_eq!(CycleTime::new(4_194_304, 1).micros(), 0);
    // 3 cycles at 4194304 Hz is 0.715... microseconds, rounding to 1.
    assert_eq!(CycleTime::new(4_194_304, 3).micros(), 1);
    // A half rounds up: 1 cycle at 2 Hz is 500000.0 microseconds exactly,
    // and 3 cycles at 2 Hz is 1.5 seconds.
    assert_eq!(CycleTime::new(2, 3).micros(), 1_500_000);
    assert_eq!(CycleTime::new(2_000_000, 1).micros(), 1);
}
