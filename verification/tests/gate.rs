use junkcpu::gate::{AndGate, NandGate, NorGate, NotGate, OrGate, XorGate};

#[test]
fn test_nand_gate() {
    let mut nand = NandGate::new(true, false);
    assert!(nand.output());
    nand.set_a(false);
    nand.set_b(true);
    assert!(nand.output());
    nand.set_a(false);
    nand.set_b(false);
    assert!(nand.output());
    nand.set_a(true);
    nand.set_b(true);
    assert!(!nand.output());
}

#[test]
fn test_not_gate() {
    let mut not = NotGate::new(true);
    assert!(!not.output());
    not.set_a(false);
    assert!(not.output());
}

#[test]
fn test_and_gate() {
    let mut and = AndGate::new(true, false);
    assert!(!and.output());
    and.set_a(false);
    and.set_b(true);
    assert!(!and.output());
    and.set_a(false);
    and.set_b(false);
    assert!(!and.output());
    and.set_a(true);
    and.set_b(true);
    assert!(and.output());
}

#[test]
fn test_or_gate() {
    let mut or = OrGate::new(true, false);
    assert!(or.output());
    or.set_a(false);
    or.set_b(true);
    assert!(or.output());
    or.set_a(false);
    or.set_b(false);
    assert!(!or.output());
    or.set_a(true);
    or.set_b(true);
    assert!(or.output());
}

#[test]
fn test_nor_gate() {
    let mut nor = NorGate::new(true, false);
    assert!(!nor.output());
    nor.set_a(false);
    nor.set_b(true);
    assert!(!nor.output());
    nor.set_a(false);
    nor.set_b(false);
    assert!(nor.output());
    nor.set_a(true);
    nor.set_b(true);
    assert!(!nor.output());
}

#[test]
fn test_xor_gate() {
    let mut xor = XorGate::new(true, false);
    assert!(xor.output());
    xor.set_a(false);
    xor.set_b(true);
    assert!(xor.output());
    xor.set_a(false);
    xor.set_b(false);
    assert!(!xor.output());
    xor.set_a(true);
    xor.set_b(true);
    assert!(!xor.output());
}

#[test]
fn gates_match_their_truth_tables() {
    for a in [false, true] {
        assert_eq!(NotGate::new(a).output(), !a);
        for b in [false, true] {
            assert_eq!(NandGate::new(a, b).output(), !(a && b));
            assert_eq!(AndGate::new(a, b).output(), a && b);
            assert_eq!(OrGate::new(a, b).output(), a || b);
            assert_eq!(NorGate::new(a, b).output(), !(a || b));
            assert_eq!(XorGate::new(a, b).output(), a != b);
        }
    }
}

#[test]
fn gate_setters_replace_one_line_only() {
    let mut and = AndGate::new(true, true);
    and.set_a(false);
    assert!(!and.output());
    and.set_a(true);
    assert!(and.output());
    and.set_b(false);
    assert!(!and.output());
    and.set_b(true);
    assert!(and.output());
}

#[test]
fn gate_output_is_repeatable() {
    let xor = XorGate::new(true, false);
    let first = xor.output();
    let second = xor.output();
    assert_eq!(first, second);
    assert!(first);
}
