use hal_core::delay::Delay;
use hal_core::delay::DelayPlan;
use hal_core::delay::SystClkSource;

#[test]
fn delay_us_short_count_only() {
    // 8 MHz: 100 us is 800 cycles
    let d = Delay::new(8_000_000);
    assert_eq!(d.source(), SystClkSource::Core);
    assert_eq!(d.delay_us(100), DelayPlan { full_cycles: 0, last_reload: Some(799) });
}

#[test]
fn delay_us_with_full_wraps() {
    // 64 MHz for one second: 64_000_000 cycles = 3 * 2^24 + 13_668_352
    let d = Delay::with_source(64_000_000, SystClkSource::External);
    assert_eq!(d.source(), SystClkSource::External);
    assert_eq!(
        d.delay_us(1_000_000),
        DelayPlan { full_cycles: 3, last_reload: Some(13_668_351) }
    );
}

#[test]
fn delay_us_under_two_cycles_skips_last_count() {
    let d = Delay::new(1_000_000);
    assert_eq!(d.delay_us(1), DelayPlan { full_cycles: 0, last_reload: None });
    assert_eq!(d.delay_us(0), DelayPlan { full_cycles: 0, last_reload: None });
    assert_eq!(d.delay_us(2), DelayPlan { full_cycles: 0, last_reload: Some(1) });
}

#[test]
fn delay_us_largest_inputs() {
    let d = Delay::new(u32::MAX);
    let ticks = (u32::MAX as u64) * (u32::MAX as u64) / 1_000_000;
    let plan = d.delay_us(u32::MAX);
    assert_eq!(plan.full_cycles, ticks >> 24);
    assert_eq!(plan.last_reload, Some(((ticks & 0xff_ffff) - 1) as u32));
}

#[test]
fn delay_ms_chunks() {
    let d = Delay::new(1_000_000);
    let plans = d.delay_ms(5);
    assert_eq!(plans, vec![d.delay_us(5000)]);
    let plans = d.delay_ms(4_294_967);
    assert_eq!(plans, vec![d.delay_us(4_294_967_000)]);
    let plans = d.delay_ms(4_294_968);
    assert_eq!(plans, vec![d.delay_us(4_294_967_000), d.delay_us(1000)]);
    let plans = d.delay_ms(u32::MAX);
    assert_eq!(plans.len(), 1001);
    assert_eq!(plans[1000], d.delay_us(295 * 1000));
}

#[test]
fn delay_ns_rounds_up() {
    let d = Delay::new(1_000_000);
    assert_eq!(d.delay_ns(1), d.delay_us(1));
    assert_eq!(d.delay_ns(1000), d.delay_us(1));
    assert_eq!(d.delay_ns(1001), d.delay_us(2));
    assert_eq!(d.delay_ns(0), d.delay_us(0));
    assert_eq!(d.delay_ns(u32::MAX), d.delay_us(4_294_968));
}
