//! What a player can ask of the game, and the game as the server holds it.

use vstd::prelude::*;
use vstd::slice::slice_to_vec;
use vstd::string::*;
use crate::board::{bit_of, coords_to_binary, u8_to_binary, Direction};

verus! {

/// A request of a player. `T` is the form in which a word travels: bits in
/// the clear on the player's side, an encrypted word on the way, wires on
/// the server.
#[derive(Debug)]
pub enum UserAction<T> {
    InitGame { initial_eggs: T },
    SetStartingCoord { starting_coord: T },
    MovePlayer { direction: T },
    LayEgg,
    PickupEgg,
    GetCell,
    Done,
}

impl<T> UserAction<T> {
    /// The name of the action.
    pub open spec fn name(&self) -> Seq<char> {
        match self {
            UserAction::InitGame { .. } => "InitGame"@,
            UserAction::SetStartingCoord { .. } => "SetStartingCoord"@,
            UserAction::MovePlayer { .. } => "MovePlayer"@,
            UserAction::LayEgg => "LayEgg"@,
            UserAction::PickupEgg => "PickupEgg"@,
            UserAction::GetCell => "GetCell"@,
            UserAction::Done => "Done"@,
        }
    }

    /// Writes the name of the action.
    pub fn to_string(&self) -> (s: String)
        ensures
            s@ == self.name(),
    {
        let text = match self {
            UserAction::InitGame { .. } => "InitGame",
            UserAction::SetStartingCoord { .. } => "SetStartingCoord",
            UserAction::MovePlayer { .. } => "MovePlayer",
            UserAction::LayEgg => "LayEgg",
            UserAction::PickupEgg => "PickupEgg",
            UserAction::GetCell => "GetCell",
            UserAction::Done => "Done",
        };
        String::from_str(text)
    }

    /// The action belongs to the setting up of a game.
    pub open spec fn spec_is_setup(&self) -> bool {
        self is InitGame || self is SetStartingCoord
    }

    /// The action is one that the server queues for the next run.
    pub open spec fn spec_is_queueable(&self) -> bool {
        self is MovePlayer || self is LayEgg || self is PickupEgg || self is GetCell
    }

    /// The action changes the game when the queue is run.
    pub open spec fn spec_is_move(&self) -> bool {
        self is MovePlayer || self is LayEgg || self is PickupEgg
    }

    #[verifier::when_used_as_spec(spec_is_setup)]
    pub fn is_setup(&self) -> (b: bool)
        ensures
            b == self.spec_is_setup(),
    {
        match self {
            UserAction::InitGame { .. } | UserAction::SetStartingCoord { .. } => true,
            _ => false,
        }
    }

    #[verifier::when_used_as_spec(spec_is_queueable)]
    pub fn is_queueable(&self) -> (b: bool)
        ensures
            b == self.spec_is_queueable(),
    {
        match self {
            UserAction::MovePlayer { .. }
            | UserAction::LayEgg
            | UserAction::PickupEgg
            | UserAction::GetCell => true,
            _ => false,
        }
    }

    #[verifier::when_used_as_spec(spec_is_move)]
    pub fn is_move(&self) -> (b: bool)
        ensures
            b == self.spec_is_move(),
    {
        match self {
            UserAction::MovePlayer { .. } | UserAction::LayEgg | UserAction::PickupEgg => true,
            _ => false,
        }
    }

    /// The word the action carries, if it carries one.
    pub open spec fn word(&self) -> Option<T> {
        match self {
            UserAction::InitGame { initial_eggs } => Some(*initial_eggs),
            UserAction::SetStartingCoord { starting_coord } => Some(*starting_coord),
            UserAction::MovePlayer { direction } => Some(*direction),
            _ => None,
        }
    }

    /// The same action with its word, if it has one, passed through `f`.
    pub fn map<U, F: Fn(&T) -> U>(&self, f: F) -> (r: UserAction<U>)
        requires
            forall|word: &T| f.requires((word,)),
        ensures
            r.name() == self.name(),
            self.word() matches Some(word) ==> (r.word() matches Some(mapped) && f.ensures(
                (&word,),
                mapped,
            )),
            self.word() is None ==> r.word() is None,
    {
        match self {
            UserAction::InitGame { initial_eggs } => UserAction::InitGame {
                initial_eggs: f(initial_eggs),
            },
            UserAction::SetStartingCoord { starting_coord } => UserAction::SetStartingCoord {
                starting_coord: f(starting_coord),
            },
            UserAction::MovePlayer { direction } => UserAction::MovePlayer {
                direction: f(direction),
            },
            UserAction::LayEgg => UserAction::LayEgg,
            UserAction::PickupEgg => UserAction::PickupEgg,
            UserAction::GetCell => UserAction::GetCell,
            UserAction::Done => UserAction::Done,
        }
    }
}

impl UserAction<Vec<bool>> {
    /// Starts a game with the given eggs on the board.
    pub fn init_game(initial_eggs: &[bool]) -> (r: Self)
        ensures
            r matches UserAction::InitGame { initial_eggs: word } && word@ == initial_eggs@,
    {
        UserAction::InitGame { initial_eggs: slice_to_vec(initial_eggs) }
    }

    /// Puts the player on the cell at row `coords.0` and column `coords.1`.
    /// The word has sixteen bits: the row in the lower half and the column
    /// in the upper half, each from its least significant bit on.
    pub fn set_starting_coord(coords: &(u8, u8)) -> (r: Self)
        ensures
            r matches UserAction::SetStartingCoord { starting_coord: word } && word@.len() == 16
                && (forall|i: int| 0 <= i < 8 ==> #[trigger] word@[i] == bit_of(coords.0, i))
                && (forall|i: int| 8 <= i < 16 ==> #[trigger] word@[i] == bit_of(coords.1, i - 8)),
    {
        let bits = coords_to_binary::<16>(coords.0, coords.1);
        let word = slice_to_vec(bits.as_slice());
        UserAction::SetStartingCoord { starting_coord: word }
    }

    /// Moves the player one cell. The word holds the eight bits of the
    /// direction's code.
    pub fn move_player(direction: Direction) -> (r: Self)
        ensures
            r matches UserAction::MovePlayer { direction: word } && word@.len() == 8 && (forall|
                i: int,
            |
                0 <= i < 8 ==> #[trigger] word@[i] == bit_of(direction.spec_code(), i)),
    {
        let bits = u8_to_binary::<8>(direction.code());
        let word = slice_to_vec(bits.as_slice());
        UserAction::MovePlayer { direction: word }
    }
}

/// The game as the server holds it, in wires of type `W`.
#[derive(Debug)]
pub struct GameStateEnc<W> {
    /// The coordinates of each player, once it has set them.
    pub coords: Vec<Option<Vec<W>>>,
    /// One wire for each cell of the board.
    pub eggs: Vec<W>,
}

/// The mathematical content of a [`GameStateEnc`].
pub struct GameModel<W> {
    pub coords: Seq<Option<Seq<W>>>,
    pub eggs: Seq<W>,
}

impl<W> View for GameStateEnc<W> {
    type V = GameModel<W>;

    open spec fn view(&self) -> GameModel<W> {
        GameModel {
            coords: Seq::new(
                self.coords@.len(),
                |i: int|
                    match self.coords@[i] {
                        Some(word) => Some(word@),
                        None => None,
                    },
            ),
            eggs: self.eggs@,
        }
    }
}

} // verus!
