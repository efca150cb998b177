use lcd_i2c::system::timer::{Error, Timer, WouldBlock};

#[test]
fn new_timer_is_idle() {
    let timer = Timer::new();
    assert!(!timer.is_started());
    assert!(!timer.has_wrapped(0));
    assert!(!timer.has_wrapped(u32::MAX));
    assert_eq!(timer.wait(0), Err(WouldBlock));
}

#[test]
fn start_arms_the_timer() {
    let mut timer = Timer::new();
    timer.start(500, 100);
    assert!(timer.is_started());
}

#[test]
fn has_wrapped_is_false_right_after_start() {
    let mut timer = Timer::new();
    timer.start(1, 0);
    assert!(!timer.has_wrapped(0));
    timer.start(500, 12_345);
    assert!(!timer.has_wrapped(12_345));
    timer.start(u32::MAX, 77);
    assert!(!timer.has_wrapped(77));
}

#[test]
fn has_wrapped_turns_true_after_timeout_ticks() {
    let mut timer = Timer::new();
    timer.start(500, 100);
    assert!(!timer.has_wrapped(599));
    assert!(timer.has_wrapped(600));
    assert!(timer.has_wrapped(601));
    assert!(timer.has_wrapped(100_000));
}

#[test]
fn has_wrapped_works_across_counter_rollover() {
    let mut timer = Timer::new();
    timer.start(10, 0xFFFF_FFFE);
    assert!(!timer.has_wrapped(0xFFFF_FFFF));
    assert!(!timer.has_wrapped(0));
    assert!(!timer.has_wrapped(7));
    assert!(timer.has_wrapped(8));
    assert!(timer.has_wrapped(9));
}

#[test]
fn zero_timeout_wraps_at_once() {
    let mut timer = Timer::new();
    timer.start(0, 42);
    assert!(timer.has_wrapped(42));
}

#[test]
fn polling_has_no_side_effects() {
    let mut timer = Timer::new();
    timer.start(5, 10);
    for _ in 0..4 {
        assert!(!timer.has_wrapped(14));
        assert_eq!(timer.wait(14), Err(WouldBlock));
    }
    for _ in 0..4 {
        assert!(timer.has_wrapped(15));
        assert_eq!(timer.wait(15), Ok(()));
    }
    assert!(timer.is_started());
    assert!(!timer.has_wrapped(14));
}

#[test]
fn wait_is_ready_once_wrapped() {
    let mut timer = Timer::new();
    timer.start(3, 1);
    assert_eq!(timer.wait(1), Err(WouldBlock));
    assert_eq!(timer.wait(3), Err(WouldBlock));
    assert_eq!(timer.wait(4), Ok(()));
}

#[test]
fn reset_starts_the_period_over() {
    let mut timer = Timer::new();
    timer.start(500, 0);
    assert!(timer.has_wrapped(500));
    timer.reset(500);
    assert!(timer.is_started());
    assert!(!timer.has_wrapped(500));
    assert!(!timer.has_wrapped(999));
    assert!(timer.has_wrapped(1000));
}

#[test]
fn reset_does_not_arm_an_idle_timer() {
    let mut timer = Timer::new();
    timer.reset(10);
    assert!(!timer.is_started());
    assert!(!timer.has_wrapped(10));
}

#[test]
fn stop_disarms() {
    let mut timer = Timer::new();
    timer.start(5, 0);
    timer.stop();
    assert!(!timer.is_started());
    assert!(!timer.has_wrapped(100));
    assert_eq!(timer.wait(100), Err(WouldBlock));
}

#[test]
fn cancel_fails_on_fresh_timer() {
    let mut timer = Timer::new();
    assert_eq!(timer.cancel(), Err(Error::Canceled));
    assert!(!timer.is_started());
}

#[test]
fn cancel_disarms_started_timer() {
    let mut timer = Timer::new();
    timer.start(5, 0);
    assert_eq!(timer.cancel(), Ok(()));
    assert!(!timer.is_started());
    assert!(!timer.has_wrapped(5));
}

#[test]
fn cancel_fails_on_cancelled_timer() {
    let mut timer = Timer::new();
    timer.start(5, 0);
    assert_eq!(timer.cancel(), Ok(()));
    assert_eq!(timer.cancel(), Err(Error::Canceled));
}

#[test]
fn cancel_fails_on_stopped_timer() {
    let mut timer = Timer::new();
    timer.start(5, 0);
    timer.stop();
    assert_eq!(timer.cancel(), Err(Error::Canceled));
}

#[test]
fn timer_is_copy() {
    let mut timer = Timer::new();
    timer.start(5, 0);
    let copy = timer;
    timer.stop();
    assert!(copy.is_started());
    assert!(copy.has_wrapped(5));
    assert!(!timer.is_started());
}
