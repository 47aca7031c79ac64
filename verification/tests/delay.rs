use ra6m5_hal::delay::{Delay, DelaySplit, SysTickWait};
use ra6m5_hal::sysc::Sysc;

fn delay_at_reset_clock() -> Delay {
    let mut taken = false;
    let (clocks, _mstp) = Sysc::init(&mut taken).ok().unwrap();
    Delay::new(&clocks)
}

#[test]
fn delay_counts_at_the_cpu_clock() {
    // after reset ICLK is MOCO / 4 = 2 MHz
    let d = delay_at_reset_clock();
    // 1 us at 2 MHz: 2 ticks, one period with reload 1
    assert_eq!(d.delay_ns(1_000), SysTickWait { full_periods: 0, last_reload: Some(1) });
    // 500 ns: one tick, which is not counted
    assert_eq!(d.delay_ns(500), SysTickWait { full_periods: 0, last_reload: None });
    // 1 ns rounds up to one tick
    assert_eq!(d.delay_ns(1), SysTickWait { full_periods: 0, last_reload: None });
    assert_eq!(d.delay_ns(0), SysTickWait { full_periods: 0, last_reload: None });
    // 4 s at 2 MHz: 8_000_000 ticks, below one full period
    assert_eq!(d.delay_ns(4_294_967_295).full_periods, 0);
    let w = d.delay_ns(4_000_000_000);
    assert_eq!(w, SysTickWait { full_periods: 0, last_reload: Some(7_999_999) });
}

#[test]
fn delay_splits_long_units() {
    let d = delay_at_reset_clock();
    assert_eq!(d.delay_us(1), DelaySplit { repeat: 0, each: 4_294_967_000, last: 1_000 });
    assert_eq!(d.delay_us(4_294_967), DelaySplit { repeat: 0, each: 4_294_967_000, last: 4_294_967_000 });
    assert_eq!(d.delay_us(4_294_968), DelaySplit { repeat: 1, each: 4_294_967_000, last: 1_000 });
    assert_eq!(d.delay_us(0), DelaySplit { repeat: 0, each: 4_294_967_000, last: 0 });
    let s = d.delay_ms(u32::MAX);
    assert_eq!(s.repeat as u64 * s.each as u64 + s.last as u64, u32::MAX as u64 * 1000);
    assert_eq!(s.repeat, 1000);
}
