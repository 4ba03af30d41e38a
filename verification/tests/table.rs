use chickens::{karma_add_circuit, karma_sub_circuit, CircuitDefinition, GateInput, GateOp};

/// Two outputs, two levels: `t7 = a0 ^ b0` and `o1 = a0 & b0`, then
/// `o0 = !t7` negated back through a constant: `o0 = t7 ^ 0`.
fn half_adder() -> Vec<u64> {
    vec![
        2, 2, 3, 1, //
        0, 7, 0, 4, 0, 0, 0, 0, 1, 0, //
        0, 1, 1, 0, 0, 0, 0, 0, 1, 0, //
        1, 0, 1, 4, 1, 7, 0, 3, 0, 0, //
        1, 7,
    ]
}

#[test]
fn a_table_is_read_row_by_row() {
    let circuit = CircuitDefinition::from_words(&half_adder()).unwrap();
    assert_eq!(circuit.output_count, 2);
    assert_eq!(circuit.prune_after_level, vec![vec![], vec![7]]);
    assert_eq!(circuit.levels.len(), 2);
    let first = &circuit.levels[0];
    assert_eq!(first.len(), 2);
    assert_eq!((first[0].id, first[0].is_output), (7, false));
    assert!(matches!(first[0].op, GateOp::Xor));
    assert!(matches!(
        first[0].inputs[..],
        [GateInput::Argument(0, 0), GateInput::Argument(1, 0)]
    ));
    assert_eq!((first[1].id, first[1].is_output), (1, true));
    assert!(matches!(first[1].op, GateOp::And));
    let second = &circuit.levels[1];
    assert_eq!(second.len(), 1);
    assert!(matches!(second[0].inputs[..], [GateInput::Temporary(7), GateInput::Constant(false)]));
    assert!(circuit.is_well_formed(&vec![1, 1]));
}

#[test]
fn gates_with_one_input_and_all_kinds_of_inputs() {
    let words = vec![
        3, 1, 3, 0, //
        0, 0, 1, 6, 0, 2, 5, 4, 0, 0, //
        0, 1, 1, 5, 3, 1, 0, 2, 9, 0, //
        0, 2, 1, 3, 1, 8, 0, 0, 0, 0,
    ];
    let circuit = CircuitDefinition::from_words(&words).unwrap();
    let level = &circuit.levels[0];
    assert!(matches!(level[0].op, GateOp::Not));
    assert!(matches!(level[0].inputs[..], [GateInput::Argument(2, 5)]));
    assert!(matches!(level[1].op, GateOp::Xnor));
    assert!(matches!(level[1].inputs[..], [GateInput::Constant(true), GateInput::Output(9)]));
    assert!(matches!(level[2].op, GateOp::Nor));
    assert!(matches!(level[2].inputs[..], [GateInput::Temporary(8), GateInput::Argument(0, 0)]));
    assert!(!circuit.is_well_formed(&vec![1, 1, 6]));
}

#[test]
fn operations_have_codes() {
    for (code, name) in ["And", "Nand", "Or", "Nor", "Xor", "Xnor", "Not"].iter().enumerate() {
        let words = vec![1, 1, 1, 0, 0, 0, 1, code as u64, 0, 0, 0, 0, 0, 1];
        let circuit = CircuitDefinition::from_words(&words).unwrap();
        assert_eq!(format!("{:?}", circuit.levels[0][0].op), *name);
    }
}

#[test]
fn tables_of_the_wrong_form_are_refused() {
    let good = half_adder();
    assert!(CircuitDefinition::from_words(&good).is_some());
    assert!(CircuitDefinition::from_words(&[]).is_none());
    assert!(CircuitDefinition::from_words(&[0, 0, 0]).is_none());
    assert!(CircuitDefinition::from_words(&[0, 0, 0, 0]).is_some());
    // too short, too long
    assert!(CircuitDefinition::from_words(&good[..good.len() - 1]).is_none());
    let mut long = good.clone();
    long.push(0);
    assert!(CircuitDefinition::from_words(&long).is_none());
    // more levels than words
    assert!(CircuitDefinition::from_words(&[0, 5, 0, 0]).is_none());
    assert!(CircuitDefinition::from_words(&[0, 4, 0, 0]).is_some());
    for (at, value) in [
        (4, 2),   // a gate of a level that is not there
        (6, 2),   // the output flag is 0 or 1
        (7, 7),   // no such operation
        (8, 4),   // the first input cannot be left out
        (8, 5),   // no such kind of input
        (11, 5),  // no such kind of input
        (30, 1),  // a temporary has one number only
        (32, 2),  // a constant is 0 or 1
        (34, 2),  // a prune row of a level that is not there
        (2, 4),   // more gate rows than there are
        (3, 0),   // fewer prune rows than there are
    ] {
        let mut bad = good.clone();
        bad[at] = value;
        assert!(CircuitDefinition::from_words(&bad).is_none(), "word {at} set to {value}");
    }
    let mut single = good.clone();
    single[11] = 4;
    assert!(CircuitDefinition::from_words(&single).is_none());
    single[12] = 0;
    assert!(CircuitDefinition::from_words(&single).is_some());
}

#[test]
fn the_netlists_of_the_library_count_their_gates() {
    let add = karma_add_circuit();
    assert_eq!(add.levels.iter().map(|level| level.len()).sum::<usize>(), 76);
    assert_eq!(add.prune_after_level.iter().map(|ids| ids.len()).sum::<usize>(), 60);
    let sub = karma_sub_circuit();
    assert_eq!(sub.levels.iter().map(|level| level.len()).sum::<usize>(), 207);
    assert_eq!(sub.prune_after_level.iter().map(|ids| ids.len()).sum::<usize>(), 175);
    assert_eq!(sub.levels[0].len(), 1);
    assert!(matches!(sub.levels[0][0].op, GateOp::Not));
    assert_eq!(sub.levels[62].len(), 32);
}
