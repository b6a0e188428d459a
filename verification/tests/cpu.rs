use junkcpu::cpu::{OneBitCPU, OneBitFourRegisterCPU};

fn selector(index: usize) -> (bool, bool) {
    (index & 1 != 0, index & 2 != 0)
}

/// A machine showing `[true, false, true, false]`.
fn seeded() -> OneBitFourRegisterCPU {
    let mut cpu = OneBitFourRegisterCPU::new();
    cpu.on();
    cpu.tick(true);
    cpu.set_sel(selector(0), selector(2));
    cpu.tick(false);
    cpu.tick(true);
    cpu
}

#[test]
fn fresh_register_file_shows_zeros() {
    let cpu = OneBitFourRegisterCPU::new();
    assert_eq!(cpu.dump(), [false, false, false, false]);
}

#[test]
fn power_on_shows_only_after_a_rising_clock() {
    let mut cpu = OneBitFourRegisterCPU::new();
    cpu.on();
    assert_eq!(cpu.dump(), [false, false, false, false]);
    cpu.tick(true);
    assert_eq!(cpu.dump(), [true, false, false, false]);
}

#[test]
fn register_file_runs_the_move_program() {
    let mut cpu = OneBitFourRegisterCPU::new();
    cpu.on();
    cpu.tick(true);
    assert_eq!(cpu.dump(), [true, false, false, false]);
    cpu.set_sel((false, false), (true, false));
    cpu.tick(false);
    assert_eq!(cpu.dump(), [true, false, false, false]);
    cpu.tick(true);
    assert_eq!(cpu.dump(), [true, true, false, false]);
    cpu.set_sel((true, false), (false, true));
    cpu.tick(false);
    assert_eq!(cpu.dump(), [true, true, false, false]);
    cpu.tick(true);
    assert_eq!(cpu.dump(), [true, true, true, false]);
    cpu.set_sel((false, true), (true, true));
    cpu.tick(false);
    assert_eq!(cpu.dump(), [true, true, true, false]);
    cpu.tick(true);
    assert_eq!(cpu.dump(), [true, true, true, true]);
}

#[test]
fn seeded_register_file_shows_the_seed() {
    assert_eq!(seeded().dump(), [true, false, true, false]);
}

#[test]
fn clock_cycle_moves_source_to_target_for_every_selector_pair() {
    for source in 0..4usize {
        for target in 0..4usize {
            let mut cpu = seeded();
            let before = cpu.dump();
            cpu.set_sel(selector(source), selector(target));
            cpu.tick(false);
            assert_eq!(cpu.dump(), before);
            cpu.tick(true);
            let after = cpu.dump();
            for i in 0..4 {
                if i == target {
                    assert_eq!(after[i], before[source]);
                } else {
                    assert_eq!(after[i], before[i]);
                }
            }
        }
    }
}

#[test]
fn selectors_take_effect_only_at_the_next_step() {
    let mut cpu = seeded();
    cpu.set_sel(selector(0), selector(1));
    assert_eq!(cpu.dump(), [true, false, true, false]);
    cpu.set_sel(selector(1), selector(0));
    assert_eq!(cpu.dump(), [true, false, true, false]);
    cpu.tick(false);
    cpu.tick(true);
    assert_eq!(cpu.dump(), [false, false, true, false]);
}

#[test]
fn steps_without_a_rising_clock_change_nothing() {
    let mut cpu = seeded();
    cpu.set_sel(selector(1), selector(0));
    cpu.tick(true);
    assert_eq!(cpu.dump(), [true, false, true, false]);
    cpu.tick(true);
    assert_eq!(cpu.dump(), [true, false, true, false]);
    cpu.tick(false);
    cpu.tick(false);
    assert_eq!(cpu.dump(), [true, false, true, false]);
}

#[test]
fn move_onto_itself_keeps_every_register() {
    for index in 0..4usize {
        let mut cpu = seeded();
        cpu.set_sel(selector(index), selector(index));
        cpu.tick(false);
        cpu.tick(true);
        assert_eq!(cpu.dump(), [true, false, true, false]);
    }
}

#[test]
fn dump_is_repeatable() {
    let cpu = seeded();
    let first = cpu.dump();
    let second = cpu.dump();
    let third = cpu.dump();
    assert_eq!(first, second);
    assert_eq!(second, third);
}

#[test]
fn one_bit_cpu_toggles_on_every_rising_clock() {
    let mut cpu = OneBitCPU::new();
    assert!(!cpu.dump());
    cpu.on();
    assert!(!cpu.dump());
    let mut shown = false;
    for _ in 0..6 {
        cpu.tick(true);
        shown = !shown;
        assert_eq!(cpu.dump(), shown);
        cpu.tick(false);
        assert_eq!(cpu.dump(), shown);
    }
}

#[test]
fn one_bit_cpu_dump_is_repeatable() {
    let mut cpu = OneBitCPU::new();
    cpu.on();
    cpu.tick(true);
    let first = cpu.dump();
    let second = cpu.dump();
    assert_eq!(first, second);
    assert!(first);
}
