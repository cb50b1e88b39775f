use gb_core::cpu::timer::{Timer, DIV, DIV_RESET, TAC, TIMA, TMA};

/// A timer whose divider was just cleared.
fn cleared_timer() -> Timer {
    let mut timer = Timer::new();
    timer.write_timer(DIV, 0);
    timer
}

#[test]
fn new_timer() {
    let timer = Timer::new();
    assert_eq!((timer.div, timer.tima, timer.tma, timer.tac, timer.tima_cooldown), (0xABCC, 0, 0, 0, 0));
    assert_eq!(DIV_RESET, 0xABCC);
    let timer = Timer::default();
    assert_eq!(timer.read_timer(DIV), 0xAB);
    assert_eq!(timer.read_timer(TIMA), 0);
    assert_eq!(timer.read_timer(TMA), 0);
    assert_eq!(timer.read_timer(TAC), 0);
}

#[test]
fn divider_shows_the_upper_byte() {
    let mut timer = cleared_timer();
    assert!(!timer.tick(63));
    assert_eq!(timer.read_timer(DIV), 0);
    timer.tick(1);
    assert_eq!(timer.read_timer(DIV), 1);
    assert_eq!(timer.div, 256);
    timer.tick(64);
    assert_eq!(timer.read_timer(DIV), 2);
    // The 16-bit counter wraps.
    timer.div = 0xFFFC;
    timer.tick(1);
    assert_eq!(timer.div, 0);
    assert_eq!(timer.read_timer(DIV), 0);
}

#[test]
fn periods_by_control_bits() {
    let periods = [(0x04u8, 1024u32, 512u16), (0x05, 16, 8), (0x06, 64, 32), (0x07, 256, 128)];
    for (tac, period, weight) in periods.iter() {
        let mut timer = cleared_timer();
        timer.write_timer(TAC, *tac);
        assert_eq!(timer.get_tima_period(), *weight);
        let mut elapsed = 0;
        while timer.read_timer(TIMA) == 0 {
            timer.tick_once();
            elapsed += 1;
            assert!(elapsed <= 2000);
        }
        assert_eq!(elapsed, *period);
        for count in 2..=5u8 {
            for _ in 0..*period {
                assert_eq!(timer.read_timer(TIMA), count - 1);
                timer.tick_once();
            }
            assert_eq!(timer.read_timer(TIMA), count);
        }
    }
}

#[test]
fn disabled_timer_does_not_count() {
    for tac in [0x00u8, 0x01, 0x02, 0x03, 0xF8, 0xFB] {
        let mut timer = cleared_timer();
        timer.write_timer(TAC, tac);
        for _ in 0..20 {
            assert!(!timer.tick(255));
        }
        assert_eq!(timer.read_timer(TIMA), 0);
        assert!(!timer.tima_tick());
    }
}

#[test]
fn overflow_reloads_after_four_ticks() {
    let mut timer = cleared_timer();
    timer.write_timer(TAC, 0x05);
    timer.write_timer(TMA, 0xAB);
    timer.write_timer(TIMA, 0xFF);
    for _ in 0..15 {
        assert!(!timer.tick_once());
        assert_eq!(timer.read_timer(TIMA), 0xFF);
    }
    assert!(!timer.tick_once());
    assert_eq!(timer.read_timer(TIMA), 0x00);
    assert_eq!(timer.tima_cooldown, 4);
    for _ in 0..3 {
        assert!(!timer.tick_once());
        assert_eq!(timer.read_timer(TIMA), 0x00);
    }
    assert!(timer.tick_once());
    assert_eq!(timer.read_timer(TIMA), 0xAB);
    assert_eq!(timer.tima_cooldown, 0);
    assert!(!timer.tick_once());
}

#[test]
fn tick_reports_the_interrupt_of_any_of_its_ticks() {
    let mut timer = cleared_timer();
    timer.write_timer(TAC, 0x05);
    timer.write_timer(TMA, 0x10);
    timer.write_timer(TIMA, 0xFF);
    assert!(!timer.tick(4));
    assert!(timer.tick(1));
    assert_eq!(timer.read_timer(TIMA), 0x10);
    assert!(!timer.tick(1));
    timer.write_timer(TIMA, 0xFF);
    timer.write_timer(DIV, 0);
    assert!(timer.tick(6));
    assert_eq!(timer.read_timer(TIMA), 0x10);
}

#[test]
fn writing_the_counter_cancels_the_reload() {
    let mut timer = cleared_timer();
    timer.write_timer(TAC, 0x05);
    timer.write_timer(TMA, 0xAB);
    timer.write_timer(TIMA, 0xFF);
    timer.tick(4);
    assert_eq!(timer.tima_cooldown, 4);
    timer.write_timer(TIMA, 0x42);
    assert_eq!(timer.tima_cooldown, 0);
    assert!(!timer.tick(3));
    assert_eq!(timer.read_timer(TIMA), 0x42);
    assert!(!timer.tick(1));
    assert_eq!(timer.read_timer(TIMA), 0x43);
}

#[test]
fn registers_hold_what_is_written() {
    let mut timer = cleared_timer();
    timer.write_timer(TMA, 0x12);
    timer.write_timer(TAC, 0xFF);
    timer.write_timer(TIMA, 0x34);
    assert_eq!(timer.read_timer(TMA), 0x12);
    assert_eq!(timer.read_timer(TAC), 0xFF);
    assert_eq!(timer.read_timer(TIMA), 0x34);
    timer.div = 0xABCD;
    assert_eq!(timer.read_timer(DIV), 0xAB);
    timer.write_timer(DIV, 0xFF);
    assert_eq!(timer.div, 0);
}
