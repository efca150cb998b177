use lcd_i2c::system::systick::{current_tick, elapsed_ticks, reload_value, TickCounter};

#[test]
fn counter_starts_at_zero() {
    let counter = TickCounter::new();
    assert_eq!(current_tick(&counter), 0);
}

#[test]
fn counter_increments_by_one() {
    let mut counter = TickCounter::new();
    counter.increment();
    assert_eq!(current_tick(&counter), 1);
    counter.increment();
    counter.increment();
    assert_eq!(current_tick(&counter), 3);
}

#[test]
fn elapsed_without_rollover() {
    assert_eq!(elapsed_ticks(100, 100), 0);
    assert_eq!(elapsed_ticks(100, 350), 250);
    assert_eq!(elapsed_ticks(0, u32::MAX), u32::MAX);
}

#[test]
fn elapsed_across_rollover() {
    assert_eq!(elapsed_ticks(u32::MAX, 0), 1);
    assert_eq!(elapsed_ticks(0xFFFF_FFF0, 0x10), 0x20);
    assert_eq!(elapsed_ticks(5, 4), u32::MAX);
}

#[test]
fn elapsed_matches_number_of_increments_over_rollover() {
    let start: u32 = u32::MAX - 2;
    let mut now: u32 = start;
    for n in 0u32..8 {
        assert_eq!(elapsed_ticks(start, now), n);
        now = now.wrapping_add(1);
    }
}

#[test]
fn reload_value_is_clock_over_thousand() {
    assert_eq!(reload_value(72_000_000), 72_000);
    assert_eq!(reload_value(8_000_000), 8_000);
    assert_eq!(reload_value(999), 0);
    assert_eq!(reload_value(1_999), 1);
    assert_eq!(reload_value(u32::MAX), 4_294_967);
}
