use at2xt::driver::{
    at_idle, at_inhibit, clear_at_clk_int, disable_at_clk_int, enable_at_clk_int, idle, is_set,
    is_unset, mk_in, unset, xt_in, xt_out, Port, AT_CLK, AT_DATA, AT_MASK, XT_CLK, XT_DATA,
    XT_MASK, XT_SENSE,
};

fn port() -> Port {
    Port { p1in: 0, p1out: 0, p1dir: 0, p1ifg: 0, p1ie: 0, p1ies: 0 }
}

#[test]
fn masks_cover_their_pins() {
    assert_eq!(AT_MASK, AT_CLK | AT_DATA);
    assert_eq!(XT_MASK, XT_CLK | XT_DATA);
    // The five wires are distinct single bits.
    let pins = [AT_CLK, XT_SENSE, XT_CLK, XT_DATA, AT_DATA];
    for (i, a) in pins.iter().enumerate() {
        assert_eq!(a.count_ones(), 1);
        for b in pins.iter().skip(i + 1) {
            assert_eq!(a & b, 0);
        }
    }
}

#[test]
fn set_and_unset_touch_only_the_latch() {
    let mut p = port();
    p.p1dir = 0xFF;
    at2xt::driver::set(&mut p, AT_DATA | XT_CLK);
    assert_eq!(p.p1out, AT_DATA | XT_CLK);
    assert_eq!(p.p1dir, 0xFF);
    unset(&mut p, XT_CLK);
    assert_eq!(p.p1out, AT_DATA);
}

#[test]
fn mk_in_clears_direction_bits() {
    let mut p = port();
    p.p1dir = 0xFF;
    mk_in(&mut p, AT_MASK);
    assert_eq!(p.p1dir, 0xFF & !AT_MASK);
}

#[test]
fn level_tests_read_the_input_register() {
    let mut p = port();
    p.p1in = AT_CLK | XT_DATA;
    assert!(is_set(&p, AT_CLK));
    assert!(!is_set(&p, AT_DATA));
    assert!(is_set(&p, AT_CLK | XT_DATA));
    assert!(!is_set(&p, AT_CLK | AT_DATA));
    assert!(is_unset(&p, AT_DATA | XT_CLK));
    assert!(!is_unset(&p, AT_CLK));
}

#[test]
fn idle_releases_pins_and_arms_clock_interrupt() {
    let mut p = port();
    p.p1dir = 0xFF;
    p.p1ifg = 0xFF;
    idle(&mut p);
    assert_eq!(p.p1dir, 0);
    assert_eq!(p.p1ifg & AT_CLK, 0);
    assert_eq!(p.p1ies & AT_CLK, AT_CLK);
    assert_eq!(p.p1ie & AT_CLK, AT_CLK);
}

#[test]
fn interrupt_enable_toggles() {
    let mut p = port();
    enable_at_clk_int(&mut p);
    assert_eq!(p.p1ie & AT_CLK, AT_CLK);
    disable_at_clk_int(&mut p);
    assert_eq!(p.p1ie & AT_CLK, 0);
    p.p1ifg = AT_CLK | XT_SENSE;
    clear_at_clk_int(&mut p);
    assert_eq!(p.p1ifg, XT_SENSE);
}

#[test]
fn at_idle_releases_both_lines_high() {
    let mut p = port();
    p.p1dir = 0xFF;
    at_idle(&mut p);
    assert_eq!(p.p1out & AT_MASK, AT_MASK);
    assert_eq!(p.p1dir & AT_MASK, 0);
}

#[test]
fn at_inhibit_pulls_clock_low_and_drives() {
    let mut p = port();
    p.p1out = AT_MASK;
    at_inhibit(&mut p);
    assert_eq!(p.p1out & AT_CLK, 0);
    assert_eq!(p.p1out & AT_DATA, AT_DATA);
    assert_eq!(p.p1dir & AT_MASK, AT_MASK);
}

#[test]
fn xt_direction_switches() {
    let mut p = port();
    xt_out(&mut p);
    assert_eq!(p.p1out & XT_MASK, XT_MASK);
    assert_eq!(p.p1dir & XT_MASK, XT_MASK);
    p.p1out = 0;
    xt_in(&mut p);
    assert_eq!(p.p1out & XT_DATA, XT_DATA);
    assert_eq!(p.p1dir & XT_MASK, 0);
}
