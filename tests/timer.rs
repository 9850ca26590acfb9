use kernel_boot::timer::{Duration, SpinWait, Timer};

#[test]
fn sub_resolution_wait_rounds_up_and_returns() {
    let timer = Timer::new(52).unwrap();
    let plan = timer.plan_spin(Duration::from_nanos(1));
    assert_eq!(plan.ticks, 1);
    assert!(plan.below_resolution);
    let wait = SpinWait::begin(1000, plan);
    let mut now = 1000u64;
    while !wait.is_done(now) {
        now += 1;
        assert!(now < 2000);
    }
    assert_eq!(now, 1001);
    assert!((now - wait.start) * timer.resolution().as_nanos() >= 1);
}

#[test]
fn plan_rounds_up_to_whole_ticks() {
    let timer = Timer::new(52).unwrap();
    let plan = timer.plan_spin(Duration::from_secs(1));
    assert_eq!(plan.ticks, 19_230_770);
    assert!(!plan.below_resolution);
    let exact = timer.plan_spin(Duration::from_nanos(104));
    assert_eq!(exact.ticks, 2);
    let over = timer.plan_spin(Duration::from_nanos(105));
    assert_eq!(over.ticks, 3);
}

#[test]
fn zero_wait_takes_no_ticks() {
    let timer = Timer::new(52).unwrap();
    let plan = timer.plan_spin(Duration::from_nanos(0));
    assert_eq!(plan.ticks, 0);
    assert!(!plan.below_resolution);
    assert!(SpinWait::begin(7, plan).is_done(7));
}

#[test]
fn zero_resolution_is_refused() {
    assert!(Timer::new(0).is_none());
    assert_eq!(Timer::new(1).unwrap().resolution(), Duration::from_nanos(1));
}

#[test]
fn counter_behind_start_keeps_waiting() {
    let wait = SpinWait { start: 100, ticks: 5 };
    assert!(!wait.is_done(50));
    assert!(!wait.is_done(104));
    assert!(wait.is_done(105));
    assert!(wait.is_done(u64::MAX));
}

#[test]
fn large_wait_on_fine_timer() {
    let timer = Timer::new(1).unwrap();
    let plan = timer.plan_spin(Duration::from_nanos(u64::MAX));
    assert_eq!(plan.ticks, u64::MAX);
    let coarse = Timer::new(u64::MAX).unwrap();
    let p = coarse.plan_spin(Duration::from_nanos(u64::MAX - 1));
    assert_eq!(p.ticks, 1);
    assert!(p.below_resolution);
}
