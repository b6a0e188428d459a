use junkcpu::flip_flop::{DFlipFlop, RSLatch};

#[test]
fn test_rs_latch() {
    let mut rs_latch = RSLatch::new(true, false);
    assert_eq!(rs_latch.output(), (true, false));
    rs_latch.set_r(true);
    assert_eq!(rs_latch.output(), (true, false));
    rs_latch.set_r(false);
    assert_eq!(rs_latch.output(), (false, true));
    rs_latch.set_r(true);
    assert_eq!(rs_latch.output(), (false, true));
    rs_latch.set_s(false);
    assert_eq!(rs_latch.output(), (true, false));
    rs_latch.set_s(true);
    assert_eq!(rs_latch.output(), (true, false));
}

#[test]
fn test_d_flip_flop() {
    let mut d_flip_flop = DFlipFlop::new();
    d_flip_flop.set_d(true);
    assert!(!d_flip_flop.output());
    d_flip_flop.set_clk(true);
    assert!(d_flip_flop.output());
    d_flip_flop.set_d(false);
    assert!(d_flip_flop.output());
    d_flip_flop.set_clk(false);
    assert!(d_flip_flop.output());
    d_flip_flop.set_clk(true);
    assert!(!d_flip_flop.output());
}

#[test]
fn latch_starts_from_either_valid_pair() {
    assert_eq!(RSLatch::new(true, false).output(), (true, false));
    assert_eq!(RSLatch::new(false, true).output(), (false, true));
}

#[test]
fn latch_outputs_stay_complementary_while_one_line_is_high() {
    for start in [false, true] {
        let mut latch = RSLatch::new(start, !start);
        // Drive the lines through every pair that keeps at least one high.
        let drives = [(true, true), (false, true), (true, true), (true, false), (true, true)];
        for (s, r) in drives {
            latch.set_s(s);
            latch.set_r(r);
            let (q, nq) = latch.output();
            assert_ne!(q, nq);
        }
    }
}

#[test]
fn latch_set_low_raises_q_and_reset_low_clears_it() {
    let mut latch = RSLatch::new(false, true);
    latch.set_s(false);
    latch.set_r(true);
    assert_eq!(latch.output(), (true, false));
    latch.set_s(true);
    latch.set_r(true);
    assert_eq!(latch.output(), (true, false));
    latch.set_s(true);
    latch.set_r(false);
    assert_eq!(latch.output(), (false, true));
    latch.set_s(true);
    latch.set_r(true);
    assert_eq!(latch.output(), (false, true));
}

#[test]
fn latch_output_is_repeatable() {
    let mut latch = RSLatch::new(true, false);
    latch.set_r(true);
    let first = latch.output();
    let second = latch.output();
    assert_eq!(first, second);
}

#[test]
fn fresh_flip_flop_shows_zero() {
    let flip_flop = DFlipFlop::new();
    assert!(!flip_flop.output());
}

#[test]
fn flip_flop_ignores_data_while_clock_is_low() {
    let mut flip_flop = DFlipFlop::new();
    for d in [true, false, true, true, false, true] {
        flip_flop.set_d(d);
        assert!(!flip_flop.output());
    }
}

#[test]
fn flip_flop_ignores_data_while_clock_is_high() {
    let mut flip_flop = DFlipFlop::new();
    flip_flop.set_d(true);
    flip_flop.set_clk(true);
    assert!(flip_flop.output());
    for d in [false, true, false, false, true, false] {
        flip_flop.set_d(d);
        assert!(flip_flop.output());
    }
}

#[test]
fn flip_flop_takes_data_on_every_rising_edge_only() {
    let mut flip_flop = DFlipFlop::new();
    let mut shown = false;
    for d in [true, true, false, true, false, false, true] {
        flip_flop.set_clk(false);
        assert_eq!(flip_flop.output(), shown);
        flip_flop.set_d(!d);
        flip_flop.set_d(d);
        assert_eq!(flip_flop.output(), shown);
        flip_flop.set_clk(true);
        shown = d;
        assert_eq!(flip_flop.output(), shown);
        flip_flop.set_d(!d);
        assert_eq!(flip_flop.output(), shown);
    }
}

#[test]
fn flip_flop_holds_when_clock_level_is_repeated() {
    let mut flip_flop = DFlipFlop::new();
    flip_flop.set_d(true);
    flip_flop.set_clk(true);
    flip_flop.set_d(false);
    flip_flop.set_clk(true);
    assert!(flip_flop.output());
    flip_flop.set_clk(false);
    flip_flop.set_clk(false);
    assert!(flip_flop.output());
}

#[test]
fn flip_flop_output_is_repeatable() {
    let mut flip_flop = DFlipFlop::new();
    flip_flop.set_d(true);
    flip_flop.set_clk(true);
    let first = flip_flop.output();
    let second = flip_flop.output();
    let third = flip_flop.output();
    assert_eq!(first, second);
    assert_eq!(second, third);
    assert!(first);
}
