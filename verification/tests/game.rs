use chickens::{
    apply_action, evaluate_circuit, get_user_cell, CircuitDefinition, Error, GameCircuits,
    GameStateEnc, GateInput, GateOp, GateSpec, PlainBackend, UserAction,
};

fn gate(id: usize, op: GateOp, inputs: Vec<GateInput>) -> GateSpec {
    GateSpec { id, is_output: true, op, inputs }
}

/// Output bit `i` is bit `i` of the first argument combined by `op` with
/// bit `i` of the second argument.
fn bitwise(op: GateOp, width: usize) -> CircuitDefinition {
    let level = (0..width)
        .map(|i| gate(i, op, vec![GateInput::Argument(0, i), GateInput::Argument(1, i)]))
        .collect();
    CircuitDefinition { levels: vec![level], prune_after_level: vec![vec![]], output_count: width }
}

/// A toy game on words of two bits: a move xors the direction into the
/// coordinates, an egg is laid by or-ing the coordinates into the eggs and
/// picked up by and-ing them, and the cell of a player is the xor of its
/// coordinates with the eggs, followed by the first bit of the row of all
/// coordinates.
fn toy_circuits() -> GameCircuits {
    let mut cell = bitwise(GateOp::Xor, 2);
    cell.levels.push(vec![gate(
        2,
        GateOp::Not,
        vec![GateInput::Argument(2, 0)],
    )]);
    cell.prune_after_level.push(vec![]);
    cell.output_count = 3;
    GameCircuits {
        move_player: bitwise(GateOp::Xor, 2),
        lay_egg: bitwise(GateOp::Or, 2),
        pickup_egg: bitwise(GateOp::And, 2),
        get_cell: cell,
    }
}

fn start() -> GameStateEnc<bool> {
    GameStateEnc {
        coords: vec![Some(vec![true, false]), Some(vec![false, true]), None],
        eggs: vec![false, false],
    }
}

#[test]
fn actions_go_through_their_circuits() {
    let circuits = toy_circuits();
    let mut state = start();
    let step = UserAction::MovePlayer { direction: vec![true, true] };
    assert_eq!(apply_action(&PlainBackend, &circuits, &mut state, 0, &step), Ok(()));
    assert_eq!(state.coords, vec![Some(vec![false, true]), Some(vec![false, true]), None]);
    assert_eq!(state.eggs, vec![false, false]);
    assert_eq!(apply_action(&PlainBackend, &circuits, &mut state, 1, &UserAction::LayEgg), Ok(()));
    assert_eq!(state.eggs, vec![false, true]);
    assert_eq!(apply_action(&PlainBackend, &circuits, &mut state, 0, &UserAction::PickupEgg), Ok(()));
    assert_eq!(state.eggs, vec![false, true]);
    assert_eq!(state.coords[0], Some(vec![false, true]));
}

#[test]
fn actions_that_cannot_be_carried_out_change_nothing() {
    let circuits = toy_circuits();
    let mut state = start();
    assert_eq!(
        apply_action(&PlainBackend, &circuits, &mut state, 2, &UserAction::LayEgg),
        Err(Error::GameNotInitedYet)
    );
    assert_eq!(
        apply_action(&PlainBackend, &circuits, &mut state, 3, &UserAction::LayEgg),
        Err(Error::GameNotInitedYet)
    );
    let short = UserAction::MovePlayer { direction: vec![true] };
    assert_eq!(
        apply_action(&PlainBackend, &circuits, &mut state, 0, &short),
        Err(Error::MalformedCircuit)
    );
    assert_eq!(state.coords, start().coords);
    assert_eq!(state.eggs, start().eggs);
}

#[test]
fn the_queue_is_run_in_order() {
    let circuits = toy_circuits();
    let mut state = start();
    let queue = vec![
        (0, UserAction::LayEgg),
        (1, UserAction::GetCell),
        (1, UserAction::MovePlayer { direction: vec![true, false] }),
        (1, UserAction::PickupEgg),
        (0, UserAction::Done),
    ];
    assert_eq!(evaluate_circuit(&PlainBackend, &circuits, &mut state, &queue), Ok(()));
    assert_eq!(state.coords[1], Some(vec![true, true]));
    assert_eq!(state.eggs, vec![true, false]);

    let mut state = start();
    let queue = vec![
        (0, UserAction::LayEgg),
        (2, UserAction::LayEgg),
        (1, UserAction::LayEgg),
    ];
    assert_eq!(
        evaluate_circuit(&PlainBackend, &circuits, &mut state, &queue),
        Err(Error::GameNotInitedYet)
    );
    assert_eq!(state.eggs, vec![true, false]);
}

#[test]
fn the_cell_is_computed_from_all_coordinates() {
    let circuits = toy_circuits();
    let mut state = start();
    assert_eq!(get_user_cell(&PlainBackend, &circuits, &state, 0), Err(Error::GameNotInitedYet));
    state.coords[2] = Some(vec![true, true]);
    state.eggs = vec![true, true];
    assert_eq!(get_user_cell(&PlainBackend, &circuits, &state, 0), Ok(vec![false, true, false]));
    assert_eq!(get_user_cell(&PlainBackend, &circuits, &state, 1), Ok(vec![true, false, false]));
    assert_eq!(get_user_cell(&PlainBackend, &circuits, &state, 3), Err(Error::GameNotInitedYet));
    state.coords[0] = Some(vec![false, false]);
    assert_eq!(get_user_cell(&PlainBackend, &circuits, &state, 2), Ok(vec![false, false, true]));
    state.eggs = vec![true];
    assert_eq!(get_user_cell(&PlainBackend, &circuits, &state, 2), Err(Error::MalformedCircuit));
}

#[test]
fn an_action_leaves_the_rest_of_the_game_alone() {
    let circuits = toy_circuits();
    let mut state = start();
    let step = UserAction::MovePlayer { direction: vec![false, true] };
    assert_eq!(apply_action(&PlainBackend, &circuits, &mut state, 1, &step), Ok(()));
    assert_eq!(state.eggs, start().eggs);
    assert_eq!(state.coords[0], start().coords[0]);
    assert_eq!(state.coords[2], None);
    assert_eq!(state.coords[1], Some(vec![false, false]));
    let before = state.coords.clone();
    assert_eq!(apply_action(&PlainBackend, &circuits, &mut state, 0, &UserAction::LayEgg), Ok(()));
    assert_eq!(state.coords, before);
    assert_eq!(state.eggs, vec![true, false]);
    let queue = vec![(0, UserAction::LayEgg), (0, UserAction::Done)];
    let mut other = start();
    assert_eq!(evaluate_circuit(&PlainBackend, &circuits, &mut other, &queue), Ok(()));
    assert_eq!(other.coords, start().coords);
}
