//! The board game on wires: every action of a player is a circuit that
//! takes the game from one state to the next.

use vstd::prelude::*;
use crate::actions::{GameModel, GameStateEnc, UserAction};
use crate::backend::GateBackend;
use crate::board::UserId;
use crate::engine::{circuit_outputs, shape, try_evaluate, words};
use crate::netlist::{CircuitDefinition, CircuitModel};
use crate::state::Error;
use crate::storage::QueuedAction;

verus! {

/// The circuits of the game.
pub struct GameCircuits {
    /// From the coordinates of a player and a direction to its new
    /// coordinates.
    pub move_player: CircuitDefinition,
    /// From the coordinates of a player and the eggs to the eggs with one
    /// laid on its cell.
    pub lay_egg: CircuitDefinition,
    /// From the coordinates of a player and the eggs to the eggs with the
    /// one on its cell taken away.
    pub pickup_egg: CircuitDefinition,
    /// From the coordinates of a player, the eggs and the coordinates of all
    /// players, one after the other, to what the player sees on its cell.
    pub get_cell: CircuitDefinition,
}

impl<W> GameModel<W> {
    /// Participant `user_id` has coordinates in the game.
    pub open spec fn has_coords(self, user_id: UserId) -> bool {
        user_id < self.coords.len() && self.coords[user_id as int] is Some
    }

    /// The two games have words of the same lengths in the same places.
    pub open spec fn same_shape(self, other: Self) -> bool {
        &&& self.eggs.len() == other.eggs.len()
        &&& self.coords.len() == other.coords.len()
        &&& forall|i: int|
            0 <= i < self.coords.len() ==> match (#[trigger] self.coords[i], other.coords[i]) {
                (Some(a), Some(b)) => a.len() == b.len(),
                (None, None) => true,
                _ => false,
            }
    }
}

/// The circuit that carries out the action.
pub open spec fn circuit_for<W>(circuits: &GameCircuits, ua: &UserAction<Vec<W>>) -> CircuitModel {
    match ua {
        UserAction::MovePlayer { .. } => circuits.move_player@,
        UserAction::LayEgg => circuits.lay_egg@,
        _ => circuits.pickup_egg@,
    }
}

/// The words the circuit of the action is run on: the coordinates of the
/// player, and the direction for a move or the eggs for an egg.
pub open spec fn arguments_for<W>(
    game: GameModel<W>,
    user_id: UserId,
    ua: &UserAction<Vec<W>>,
) -> Seq<Seq<W>> {
    match ua {
        UserAction::MovePlayer { direction } => seq![game.coords[user_id as int]->0, direction@],
        _ => seq![game.coords[user_id as int]->0, game.eggs],
    }
}

/// The lengths of the words in `args`.
pub open spec fn lengths<W>(args: Seq<Seq<W>>) -> Seq<nat> {
    Seq::new(args.len(), |i: int| args[i].len())
}

/// What an action of participant `user_id` makes of the game: a move gives
/// the player new coordinates, an egg laid or picked up gives the board
/// new eggs. A player without coordinates cannot act, and a circuit that
/// does not fit the words cannot be run.
pub open spec fn action_outcome<B: GateBackend>(
    backend: &B,
    circuits: &GameCircuits,
    game: GameModel<B::Wire>,
    user_id: UserId,
    ua: &UserAction<Vec<B::Wire>>,
) -> Result<GameModel<B::Wire>, Error> {
    if !game.has_coords(user_id) {
        Err(Error::GameNotInitedYet)
    } else {
        let circuit = circuit_for(circuits, ua);
        let args = arguments_for(game, user_id, ua);
        if !circuit.well_formed(lengths(args)) {
            Err(Error::MalformedCircuit)
        } else {
            let word = circuit_outputs(backend, circuit, args);
            if ua is MovePlayer {
                Ok(GameModel { coords: game.coords.update(user_id as int, Some(word)), ..game })
            } else {
                Ok(GameModel { eggs: word, ..game })
            }
        }
    }
}

/// Carries out one action of participant `user_id`. Nothing changes if the
/// action cannot be carried out.
pub fn apply_action<B: GateBackend>(
    backend: &B,
    circuits: &GameCircuits,
    state: &mut GameStateEnc<B::Wire>,
    user_id: UserId,
    ua: &UserAction<Vec<B::Wire>>,
) -> (r: Result<(), Error>)
    requires
        ua.is_move(),
    ensures
        r is Ok <==> action_outcome(backend, circuits, old(state)@, user_id, ua) is Ok,
        r matches Err(e) ==> e == action_outcome(backend, circuits, old(state)@, user_id, ua)->Err_0
            && *final(state) == *old(state),
        r is Ok ==> final(state)@.same_shape(
            action_outcome(backend, circuits, old(state)@, user_id, ua)->Ok_0,
        ),
        r is Ok && backend.exact() ==> final(state)@ == action_outcome(
            backend,
            circuits,
            old(state)@,
            user_id,
            ua,
        )->Ok_0,
        ua is MovePlayer ==> final(state)@.eggs == old(state)@.eggs,
        ua is MovePlayer ==> forall|i: int|
            0 <= i < old(state)@.coords.len() && i != user_id ==> #[trigger] final(state)@.coords[i]
                == old(state)@.coords[i],
        !(ua is MovePlayer) ==> final(state)@.coords == old(state)@.coords,
{
    if user_id >= state.coords.len() {
        return Err(Error::GameNotInitedYet);
    }
    let coords: &Vec<B::Wire> = match &state.coords[user_id] {
        Some(coords) => coords,
        None => {
            return Err(Error::GameNotInitedYet);
        },
    };
    let ghost before = state@;
    let ghost args = arguments_for(before, user_id, ua);
    match ua {
        UserAction::MovePlayer { direction } => {
            let arguments: Vec<&Vec<B::Wire>> = vec![coords, direction];
            assert(shape(arguments@) =~= lengths(args));
            assert(words(arguments@) =~= args);
            let moved = try_evaluate(backend, &circuits.move_player, &arguments)?;
            let ghost word = moved@;
            state.coords.set(user_id, Some(moved));
            assert(state@.coords =~= before.coords.update(user_id as int, Some(word)));
        },
        UserAction::LayEgg => {
            let arguments: Vec<&Vec<B::Wire>> = vec![coords, &state.eggs];
            assert(shape(arguments@) =~= lengths(args));
            assert(words(arguments@) =~= args);
            let eggs = try_evaluate(backend, &circuits.lay_egg, &arguments)?;
            state.eggs = eggs;
            assert(state@.coords =~= before.coords);
        },
        _ => {
            let arguments: Vec<&Vec<B::Wire>> = vec![coords, &state.eggs];
            assert(shape(arguments@) =~= lengths(args));
            assert(words(arguments@) =~= args);
            let eggs = try_evaluate(backend, &circuits.pickup_egg, &arguments)?;
            state.eggs = eggs;
            assert(state@.coords =~= before.coords);
        },
    }
    Ok(())
}

/// The game after the first `count` actions of the queue, and what became
/// of them. The actions are taken in order; an action that is no move is
/// passed over; the first action that cannot be carried out ends the run
/// and leaves the game as the actions before it made it.
pub open spec fn queue_outcome<B: GateBackend>(
    backend: &B,
    circuits: &GameCircuits,
    game: GameModel<B::Wire>,
    uas: Seq<QueuedAction<B::Wire>>,
    count: nat,
) -> (GameModel<B::Wire>, Result<(), Error>)
    decreases count,
{
    if count == 0 {
        (game, Ok(()))
    } else {
        let (earlier, result) = queue_outcome(backend, circuits, game, uas, (count - 1) as nat);
        let (user_id, ua) = uas[count - 1];
        if result is Err || !ua.is_move() {
            (earlier, result)
        } else {
            match action_outcome(backend, circuits, earlier, user_id, &ua) {
                Ok(next) => (next, Ok(())),
                Err(e) => (earlier, Err(e)),
            }
        }
    }
}

/// The queue holds a move of participant `user_id`.
pub open spec fn moves_player<W>(uas: Seq<QueuedAction<W>>, user_id: int) -> bool {
    exists|k: int| 0 <= k < uas.len() && (#[trigger] uas[k]).0 == user_id && uas[k].1 is MovePlayer
}

/// The queue holds an egg laid or picked up.
pub open spec fn touches_eggs<W>(uas: Seq<QueuedAction<W>>) -> bool {
    exists|k: int| 0 <= k < uas.len() && ((#[trigger] uas[k]).1 is LayEgg || uas[k].1 is PickupEgg)
}

/// Carries out the queued actions on the game, oldest first. Whatever the
/// backend, the eggs stay as they were unless the queue holds an egg
/// action, and the coordinates of a player stay as they were unless the
/// queue holds a move of that player.
pub fn evaluate_circuit<B: GateBackend>(
    backend: &B,
    circuits: &GameCircuits,
    state: &mut GameStateEnc<B::Wire>,
    uas: &Vec<QueuedAction<B::Wire>>,
) -> (r: Result<(), Error>)
    ensures
        final(state)@.coords.len() == old(state)@.coords.len(),
        !touches_eggs(uas@) ==> final(state)@.eggs == old(state)@.eggs,
        forall|u: int|
            0 <= u < old(state)@.coords.len() && !moves_player(uas@, u)
                ==> #[trigger] final(state)@.coords[u] == old(state)@.coords[u],
        backend.exact() ==> (final(state)@, r) == queue_outcome(
            backend,
            circuits,
            old(state)@,
            uas@,
            uas@.len(),
        ),
{
    let mut i: usize = 0;
    while i < uas.len()
        invariant
            i <= uas@.len(),
            state@.coords.len() == old(state)@.coords.len(),
            !touches_eggs(uas@) ==> state@.eggs == old(state)@.eggs,
            forall|u: int|
                0 <= u < old(state)@.coords.len() && !moves_player(uas@, u)
                    ==> #[trigger] state@.coords[u] == old(state)@.coords[u],
            backend.exact() ==> (state@, Ok::<(), Error>(())) == queue_outcome(
                backend,
                circuits,
                old(state)@,
                uas@,
                i as nat,
            ),
        decreases uas@.len() - i,
    {
        let ghost before = state@;
        let ua = &uas[i].1;
        proof {
            let queued = uas@[i as int];
            if ua is MovePlayer {
                assert(moves_player(uas@, queued.0 as int));
            }
            if ua is LayEgg || ua is PickupEgg {
                assert(touches_eggs(uas@));
            }
        }
        if ua.is_move() {
            match apply_action(backend, circuits, state, uas[i].0, ua) {
                Ok(()) => {},
                Err(e) => {
                    proof {
                        if backend.exact() {
                            lemma_queue_stops(
                                backend,
                                circuits,
                                old(state)@,
                                uas@,
                                (i + 1) as nat,
                                uas@.len(),
                            );
                        }
                    }
                    return Err(e);
                },
            }
        }
        i += 1;
    }
    Ok(())
}

/// Once an action of the queue has failed, the rest of the queue changes
/// nothing.
proof fn lemma_queue_stops<B: GateBackend>(
    backend: &B,
    circuits: &GameCircuits,
    game: GameModel<B::Wire>,
    uas: Seq<QueuedAction<B::Wire>>,
    failed: nat,
    count: nat,
)
    requires
        failed <= count,
        queue_outcome(backend, circuits, game, uas, failed).1 is Err,
    ensures
        queue_outcome(backend, circuits, game, uas, count) == queue_outcome(
            backend,
            circuits,
            game,
            uas,
            failed,
        ),
    decreases count,
{
    if count > failed {
        lemma_queue_stops(backend, circuits, game, uas, failed, (count - 1) as nat);
    }
}

/// The coordinates of the first `count` players, one word after the other.
pub open spec fn coords_in_a_row<W>(coords: Seq<Option<Seq<W>>>, count: nat) -> Seq<W>
    decreases count,
{
    if count == 0 {
        Seq::empty()
    } else {
        coords_in_a_row(coords, (count - 1) as nat) + coords[count - 1]->0
    }
}

/// Every player has coordinates.
pub open spec fn all_placed<W>(coords: Seq<Option<Seq<W>>>) -> bool {
    forall|i: int| 0 <= i < coords.len() ==> (#[trigger] coords[i] is Some)
}

/// The words the cell circuit is run on for participant `user_id`: its
/// coordinates, the eggs, and the coordinates of all players in a row.
pub open spec fn cell_arguments<W>(game: GameModel<W>, user_id: UserId) -> Seq<Seq<W>> {
    seq![
        game.coords[user_id as int]->0,
        game.eggs,
        coords_in_a_row(game.coords, game.coords.len()),
    ]
}

/// What participant `user_id` sees on its cell. Every player must have
/// coordinates for there to be an answer.
pub open spec fn cell_outcome<B: GateBackend>(
    backend: &B,
    circuits: &GameCircuits,
    game: GameModel<B::Wire>,
    user_id: UserId,
) -> Result<Seq<B::Wire>, Error> {
    if !(user_id < game.coords.len() && all_placed(game.coords)) {
        Err(Error::GameNotInitedYet)
    } else if !circuits.get_cell@.well_formed(lengths(cell_arguments(game, user_id))) {
        Err(Error::MalformedCircuit)
    } else {
        Ok(circuit_outputs(backend, circuits.get_cell@, cell_arguments(game, user_id)))
    }
}

/// Computes what participant `user_id` sees on its cell.
pub fn get_user_cell<B: GateBackend>(
    backend: &B,
    circuits: &GameCircuits,
    state: &GameStateEnc<B::Wire>,
    user_id: UserId,
) -> (r: Result<Vec<B::Wire>, Error>)
    ensures
        r is Ok <==> cell_outcome(backend, circuits, state@, user_id) is Ok,
        r matches Err(e) ==> e == cell_outcome(backend, circuits, state@, user_id)->Err_0,
        r matches Ok(cell) ==> cell@.len() == circuits.get_cell.output_count && (backend.exact()
            ==> cell@ == cell_outcome(backend, circuits, state@, user_id)->Ok_0),
{
    if user_id >= state.coords.len() {
        return Err(Error::GameNotInitedYet);
    }
    let mut all: Vec<B::Wire> = Vec::new();
    let mut i: usize = 0;
    while i < state.coords.len()
        invariant
            i <= state.coords@.len(),
            forall|j: int| 0 <= j < i ==> (#[trigger] state@.coords[j] is Some),
            all@.len() == coords_in_a_row(state@.coords, i as nat).len(),
            backend.exact() ==> all@ == coords_in_a_row(state@.coords, i as nat),
        decreases state.coords@.len() - i,
    {
        match &state.coords[i] {
            Some(word) => {
                assert(state@.coords[i as int] == Some(word@));
                let ghost before = all@;
                let mut k: usize = 0;
                while k < word.len()
                    invariant
                        k <= word@.len(),
                        all@.len() == before.len() + k,
                        backend.exact() ==> all@ == before + word@.take(k as int),
                    decreases word@.len() - k,
                {
                    let ghost so_far = all@;
                    all.push(backend.duplicate(&word[k]));
                    assert(backend.exact() ==> all@ =~= before + word@.take(k + 1)) by {
                        if backend.exact() {
                            assert(word@.take(k + 1) =~= word@.take(k as int).push(word@[k as int]));
                        }
                    }
                    k += 1;
                }
                assert(word@.take(word@.len() as int) =~= word@);
            },
            None => {
                assert(!(state@.coords[i as int] is Some));
                return Err(Error::GameNotInitedYet);
            },
        }
        i += 1;
    }
    let me: &Vec<B::Wire> = match &state.coords[user_id] {
        Some(word) => word,
        None => {
            return Err(Error::GameNotInitedYet);
        },
    };
    assert(state@.coords[user_id as int] == Some(me@));
    let arguments: Vec<&Vec<B::Wire>> = vec![me, &state.eggs, &all];
    let ghost args = cell_arguments(state@, user_id);
    assert(shape(arguments@) =~= lengths(args));
    assert(backend.exact() ==> words(arguments@) =~= args);
    try_evaluate(backend, &circuits.get_cell, &arguments)
}

} // verus!
