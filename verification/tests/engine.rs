use chickens::{
    apply, evaluate, evaluate_serial, CircuitDefinition, GateBackend, GateInput, GateOp, GateSpec,
    PlainBackend,
};
use std::sync::atomic::{AtomicUsize, Ordering};

fn gate(id: usize, is_output: bool, op: GateOp, inputs: Vec<GateInput>) -> GateSpec {
    GateSpec { id, is_output, op, inputs }
}

/// sum = a ^ b, carry = a & b, with a temporary in between.
fn half_adder() -> CircuitDefinition {
    CircuitDefinition {
        levels: vec![
            vec![
                gate(7, false, GateOp::Xor, vec![GateInput::Argument(0, 0), GateInput::Argument(1, 0)]),
                gate(1, true, GateOp::And, vec![GateInput::Argument(0, 0), GateInput::Argument(1, 0)]),
            ],
            vec![gate(0, true, GateOp::Or, vec![GateInput::Temporary(7), GateInput::Constant(false)])],
        ],
        prune_after_level: vec![vec![], vec![7]],
        output_count: 2,
    }
}

#[test]
fn half_adder_truth_table() {
    let circuit = half_adder();
    assert!(circuit.is_well_formed(&vec![1, 1]));
    for a in [false, true] {
        for b in [false, true] {
            let (wa, wb) = (vec![a], vec![b]);
            let out = evaluate(&PlainBackend, &circuit, &vec![&wa, &wb]);
            assert_eq!(out, vec![a ^ b, a & b]);
            let serial = evaluate_serial(&PlainBackend, &circuit, &vec![&wa, &wb]);
            assert_eq!(serial, out);
        }
    }
}

#[test]
fn dangling_temporary_is_malformed() {
    let mut circuit = half_adder();
    circuit.prune_after_level = vec![vec![7], vec![]];
    assert!(!circuit.is_well_formed(&vec![1, 1]));
}

/// Wires are the formulas that the gates write, so that a test can read
/// which primitive gates were applied, and in which nesting.
struct Formulas {
    bound: AtomicUsize,
}

impl GateBackend for Formulas {
    type Wire = String;

    fn exact(&self) -> bool {
        true
    }

    fn and_wire(&self, a: String, b: String) -> String {
        self.and_gate(&a, &b)
    }

    fn or_wire(&self, a: String, b: String) -> String {
        self.or_gate(&a, &b)
    }

    fn xor_wire(&self, a: String, b: String) -> String {
        self.xor_gate(&a, &b)
    }

    fn not_wire(&self, a: String) -> String {
        self.not_gate(&a)
    }

    fn constant_wire(&self, value: bool) -> String {
        self.constant(value)
    }

    fn and_gate(&self, a: &String, b: &String) -> String {
        format!("({a} & {b})")
    }

    fn or_gate(&self, a: &String, b: &String) -> String {
        format!("({a} | {b})")
    }

    fn xor_gate(&self, a: &String, b: &String) -> String {
        format!("({a} ^ {b})")
    }

    fn not_gate(&self, a: &String) -> String {
        format!("!{a}")
    }

    fn constant(&self, value: bool) -> String {
        if value { "1".to_string() } else { "0".to_string() }
    }

    fn duplicate(&self, wire: &String) -> String {
        wire.clone()
    }

    fn bind_worker(&self) {
        self.bound.fetch_add(1, Ordering::SeqCst);
    }
}

#[test]
fn every_operation_goes_through_its_primitive_gates() {
    let backend = Formulas { bound: AtomicUsize::new(0) };
    let (a, b) = ("a".to_string(), "b".to_string());
    let expected = [
        (GateOp::And, "(a & b)"),
        (GateOp::Nand, "!(a & b)"),
        (GateOp::Or, "(a | b)"),
        (GateOp::Nor, "!(a | b)"),
        (GateOp::Xor, "(a ^ b)"),
        (GateOp::Xnor, "!(a ^ b)"),
        (GateOp::Not, "!a"),
    ];
    for (op, formula) in expected {
        assert_eq!(apply(&backend, op, &a, &b), formula);
    }
    for op in [GateOp::And, GateOp::Nand, GateOp::Or, GateOp::Nor, GateOp::Xor, GateOp::Xnor] {
        for (x, y) in [(false, false), (false, true), (true, false), (true, true)] {
            assert_eq!(apply(&PlainBackend, op, &x, &y), op.apply_to_bits(x, y));
        }
    }
    assert_eq!(apply(&PlainBackend, GateOp::Not, &true, &false), false);
}

#[test]
fn the_engine_binds_its_workers_and_writes_the_formulas_of_the_circuit() {
    let circuit = half_adder();
    let (a, b) = (vec!["a".to_string()], vec!["b".to_string()]);
    let serial = Formulas { bound: AtomicUsize::new(0) };
    let out = evaluate_serial(&serial, &circuit, &vec![&a, &b]);
    assert_eq!(out, vec!["((a ^ b) | 0)".to_string(), "(a & b)".to_string()]);
    assert_eq!(serial.bound.load(Ordering::SeqCst), 1);
    let pooled = Formulas { bound: AtomicUsize::new(0) };
    assert_eq!(evaluate(&pooled, &circuit, &vec![&a, &b]), out);
    assert!(pooled.bound.load(Ordering::SeqCst) >= 1);
}
