use lcd_i2c::system::delay::{ticks_for_us, Delay};

#[test]
fn new_delay_waits_from_tick_zero() {
    let delay = Delay::new();
    assert!(delay.is_waiting(0, 1));
    assert!(delay.is_waiting(4, 5));
    assert!(!delay.is_waiting(5, 5));
}

#[test]
fn zero_length_wait_is_over_at_once() {
    let mut delay = Delay::new();
    delay.begin(1234);
    assert!(!delay.is_waiting(1234, 0));
}

#[test]
fn wait_lasts_exactly_the_duration() {
    let mut delay = Delay::new();
    delay.begin(1000);
    assert!(delay.is_waiting(1000, 15));
    assert!(delay.is_waiting(1014, 15));
    assert!(!delay.is_waiting(1015, 15));
    assert!(!delay.is_waiting(2000, 15));
}

#[test]
fn wait_survives_counter_rollover() {
    let mut delay = Delay::new();
    delay.begin(u32::MAX - 1);
    assert!(delay.is_waiting(u32::MAX - 1, 5));
    assert!(delay.is_waiting(u32::MAX, 5));
    assert!(delay.is_waiting(0, 5));
    assert!(delay.is_waiting(2, 5));
    assert!(!delay.is_waiting(3, 5));
}

#[test]
fn begin_replaces_the_snapshot() {
    let mut delay = Delay::new();
    delay.begin(10);
    delay.begin(20);
    assert!(delay.is_waiting(24, 5));
    assert!(!delay.is_waiting(25, 5));
}

#[test]
fn micros_round_up_to_whole_ticks() {
    assert_eq!(ticks_for_us(0), 1);
    assert_eq!(ticks_for_us(1), 1);
    assert_eq!(ticks_for_us(1000), 1);
    assert_eq!(ticks_for_us(1001), 2);
    assert_eq!(ticks_for_us(1999), 2);
    assert_eq!(ticks_for_us(2000), 2);
    assert_eq!(ticks_for_us(2001), 3);
    assert_eq!(ticks_for_us(50_000), 50);
    assert_eq!(ticks_for_us(u32::MAX), 4_294_968);
}

#[test]
fn micros_wait_is_never_shorter_than_asked() {
    let samples: [u32; 8] = [0, 1, 999, 1000, 1001, 123_456, 4_000_000_000, u32::MAX];
    for us in samples {
        let ticks = ticks_for_us(us);
        assert!(ticks >= 1);
        assert!(u64::from(ticks) * 1000 >= u64::from(us));
    }
}
