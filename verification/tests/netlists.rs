use chickens::karma::{balance, received_from, total_given};
use chickens::{
    evaluate, evaluate_serial, karma_add, karma_add_circuit, karma_sub, karma_sub_circuit,
    try_evaluate, CircuitDefinition, Error, GateInput, PlainBackend,
};

fn bits(value: u64, width: usize) -> Vec<bool> {
    (0..width).map(|i| (value >> i) & 1 == 1).collect()
}

fn number(word: &[bool]) -> u64 {
    word.iter().enumerate().map(|(i, bit)| (*bit as u64) << i).sum()
}

fn add16(a: u64, b: u64) -> u64 {
    number(&karma_add(&PlainBackend, &bits(a, 16), &bits(b, 16)).unwrap())
}

fn sub32(a: u64, b: u64) -> u64 {
    number(&karma_sub(&PlainBackend, &bits(a, 32), &bits(b, 32)).unwrap())
}

fn without_pruning(mut circuit: CircuitDefinition) -> CircuitDefinition {
    circuit.prune_after_level = circuit.levels.iter().map(|_| Vec::new()).collect();
    circuit
}

#[test]
fn netlists_are_well_formed() {
    let add = karma_add_circuit();
    assert_eq!((add.levels.len(), add.prune_after_level.len(), add.output_count), (30, 30, 16));
    assert!(add.is_well_formed(&vec![16, 16]));
    assert!(add.is_well_formed(&vec![20, 16]));
    assert!(!add.is_well_formed(&vec![16, 15]));
    assert!(!add.is_well_formed(&vec![16]));
    let sub = karma_sub_circuit();
    assert_eq!((sub.levels.len(), sub.prune_after_level.len(), sub.output_count), (63, 63, 32));
    assert!(sub.is_well_formed(&vec![32, 32]));
    assert!(!sub.is_well_formed(&vec![31, 32]));
}

#[test]
fn adder_adds_modulo_two_to_the_sixteen() {
    assert_eq!(add16(0, 0), 0);
    assert_eq!(add16(1, 1), 2);
    assert_eq!(add16(11055, 37877), 48932);
    assert_eq!(add16(46524, 52919), 33907);
    assert_eq!(add16(65535, 1), 0);
    assert_eq!(add16(65535, 65535), 65534);
    assert_eq!(karma_add(&PlainBackend, &bits(0xFFFF, 16), &bits(1, 16)), Ok(vec![false; 16]));
    // bits above the sixteenth are not read
    assert_eq!(
        karma_add(&PlainBackend, &bits(0x5_0003, 20), &bits(0xF_0004, 24)),
        Ok(bits(7, 16))
    );
    let mut seed = 12345u64;
    for _ in 0..200 {
        seed = seed.wrapping_mul(6364136223846793005).wrapping_add(1442695040888963407);
        let (a, b) = ((seed >> 16) & 0xffff, (seed >> 40) & 0xffff);
        assert_eq!(add16(a, b), (a + b) & 0xffff);
    }
}

#[test]
fn subtractor_subtracts_modulo_two_to_the_thirty_two() {
    assert_eq!(sub32(0, 0), 0);
    assert_eq!(sub32(5, 3), 2);
    assert_eq!(sub32(2444861055, 326841483), 2118019572);
    assert_eq!(sub32(1988483879, 2865896724), 3417554451);
    assert_eq!(sub32(0, 1), 4294967295);
    assert_eq!(sub32(2, 6), 0xFFFF_FFFC);
    let mut seed = 99u64;
    for _ in 0..200 {
        seed = seed.wrapping_mul(6364136223846793005).wrapping_add(1442695040888963407);
        let (a, b) = (seed >> 32, seed & 0xffff_ffff);
        assert_eq!(sub32(a, b), a.wrapping_sub(b) & 0xffff_ffff);
    }
}

#[test]
fn short_words_are_refused() {
    assert_eq!(
        karma_add(&PlainBackend, &bits(1, 15), &bits(1, 16)),
        Err(Error::MalformedCircuit)
    );
    assert_eq!(
        karma_sub(&PlainBackend, &bits(1, 32), &bits(1, 8)),
        Err(Error::MalformedCircuit)
    );
    let circuit = karma_add_circuit();
    let (a, b) = (bits(3, 16), bits(4, 16));
    assert_eq!(try_evaluate(&PlainBackend, &circuit, &vec![&a]), Err(Error::MalformedCircuit));
    assert_eq!(try_evaluate(&PlainBackend, &circuit, &vec![&a, &b]), Ok(bits(7, 16)));
}

#[test]
fn pruning_does_not_change_the_outputs() {
    for (pruned, full, width) in [
        (karma_add_circuit(), without_pruning(karma_add_circuit()), 16),
        (karma_sub_circuit(), without_pruning(karma_sub_circuit()), 32),
    ] {
        assert!(full.is_well_formed(&vec![width, width]));
        let mut seed = 7u64;
        for _ in 0..50 {
            seed = seed.wrapping_mul(6364136223846793005).wrapping_add(1442695040888963407);
            let (a, b) = (bits(seed >> 32, width), bits(seed & 0xffff_ffff, width));
            let with = evaluate(&PlainBackend, &pruned, &vec![&a, &b]);
            let without = evaluate(&PlainBackend, &full, &vec![&a, &b]);
            assert_eq!(with, without);
        }
    }
}

#[test]
fn no_level_reads_what_an_earlier_level_pruned() {
    for circuit in [karma_add_circuit(), karma_sub_circuit()] {
        for (level, pruned) in circuit.prune_after_level.iter().enumerate() {
            for later in &circuit.levels[level + 1..] {
                for gate in later {
                    for input in &gate.inputs {
                        if let GateInput::Temporary(id) = input {
                            assert!(!pruned.contains(id));
                        }
                    }
                }
            }
        }
    }
}

#[test]
fn serial_and_parallel_runs_agree_and_repeat() {
    let circuit = karma_sub_circuit();
    let (a, b) = (bits(123456789, 32), bits(987654321, 32));
    let first = evaluate(&PlainBackend, &circuit, &vec![&a, &b]);
    for _ in 0..5 {
        assert_eq!(evaluate(&PlainBackend, &circuit, &vec![&a, &b]), first);
        assert_eq!(evaluate_serial(&PlainBackend, &circuit, &vec![&a, &b]), first);
    }
    assert_eq!(number(&first), 123456789u64.wrapping_sub(987654321) & 0xffff_ffff);
}

/// Three participants give karma; each row lists what one of them gives to
/// participants 0, 1 and 2, followed by the total it gives.
#[test]
fn karma_balances_of_three_participants() {
    let given: [[u8; 4]; 3] = [[0, 2, 4, 6], [1, 0, 1, 2], [1, 1, 0, 2]];
    let expected: [u8; 3] = [
        (0u8 + 1 + 1).wrapping_sub(6),
        (2u8 + 0 + 1).wrapping_sub(2),
        (4u8 + 1 + 0).wrapping_sub(2),
    ];
    assert_eq!(expected, [252, 1, 3]);
    for me in 0..3 {
        let places = received_from(me, 3);
        assert_eq!(places, vec![(0, me), (1, me), (2, me)]);
        let received: Vec<u8> = places.iter().map(|(user, at)| given[*user][*at]).collect();
        let (user, at) = total_given(me, 3);
        assert_eq!((user, at), (me, 3));
        let total = given[user][at];
        assert_eq!(balance(&received, total), expected[me]);

        // the same through the netlists, on words of bits
        let mut sum = bits(received[0] as u64, 16);
        for r in &received[1..] {
            sum = karma_add(&PlainBackend, &sum, &bits(*r as u64, 16)).unwrap();
        }
        sum.resize(32, false);
        let difference = karma_sub(&PlainBackend, &sum, &bits(total as u64, 32)).unwrap();
        assert_eq!(number(&difference[..8]) as u8, expected[me]);
    }
}
