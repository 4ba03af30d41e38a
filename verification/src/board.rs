//! What a player of the board game knows in the clear: where it stands and
//! which eggs it has laid.

use vstd::prelude::*;
use vstd::string::*;
use crate::text::{decimal, decimal_string};

verus! {

/// Participants are numbered in the order in which they registered.
pub type UserId = usize;

/// The board is a square of this many rows and columns.
pub const BOARD_DIM: usize = 4;

/// Number of cells on the board.
pub const BOARD_SIZE: usize = BOARD_DIM * BOARD_DIM;

/// A step to a neighbouring cell. Rows count from the top, columns from the
/// left, and the board wraps around at its edges.
#[derive(Copy, Clone, Debug)]
pub enum Direction {
    Up,
    Down,
    Left,
    Right,
}

impl Direction {
    /// The number under which the direction travels in an encrypted word.
    pub open spec fn spec_code(self) -> u8 {
        match self {
            Direction::Up => 0,
            Direction::Down => 1,
            Direction::Left => 2,
            Direction::Right => 3,
        }
    }

    /// Computes [`Direction::spec_code`].
    pub fn code(self) -> (c: u8)
        ensures
            c == self.spec_code(),
    {
        match self {
            Direction::Up => 0,
            Direction::Down => 1,
            Direction::Left => 2,
            Direction::Right => 3,
        }
    }
}

/// Bit `i` of `v`, counted from the least significant one. The bit index
/// wraps at eight, as a shift of a byte does.
pub open spec fn bit_of(v: u8, i: int) -> bool {
    (v as int / pow2_small(i % 8)) % 2 == 1
}

/// Two to the power `e` for `0 <= e < 8`, and 1 elsewhere.
pub open spec fn pow2_small(e: int) -> int {
    if e == 1 {
        2
    } else if e == 2 {
        4
    } else if e == 3 {
        8
    } else if e == 4 {
        16
    } else if e == 5 {
        32
    } else if e == 6 {
        64
    } else if e == 7 {
        128
    } else {
        1
    }
}

fn test_bit(v: u8, i: usize) -> (b: bool)
    ensures
        b == bit_of(v, i as int),
{
    let shift: u8 = (i % 8) as u8;
    let shifted: u8 = v >> shift;
    assert(shifted as int == v as int / pow2_small(shift as int)) by {
        assert(shift == 0 ==> v >> shift == v) by (bit_vector);
        assert(shift == 1 ==> v >> shift == v / 2) by (bit_vector);
        assert(shift == 2 ==> v >> shift == v / 4) by (bit_vector);
        assert(shift == 3 ==> v >> shift == v / 8) by (bit_vector);
        assert(shift == 4 ==> v >> shift == v / 16) by (bit_vector);
        assert(shift == 5 ==> v >> shift == v / 32) by (bit_vector);
        assert(shift == 6 ==> v >> shift == v / 64) by (bit_vector);
        assert(shift == 7 ==> v >> shift == v / 128) by (bit_vector);
    }
    assert(shifted & 1 == shifted % 2) by (bit_vector);
    (shifted & 1) == 1
}

/// The `N` low bits of `v`, least significant first.
pub fn u8_to_binary<const N: usize>(v: u8) -> (bits: [bool; N])
    requires
        N <= 8,
        N < 8 ==> (v as int) < pow2_small(N as int),
    ensures
        forall|i: int| 0 <= i < N ==> #[trigger] bits@[i] == bit_of(v, i),
{
    let mut result = [false; N];
    let mut i: usize = 0;
    while i < N
        invariant
            i <= N,
            forall|j: int| 0 <= j < i ==> #[trigger] result@[j] == bit_of(v, j),
        decreases N - i,
    {
        result[i] = test_bit(v, i);
        i += 1;
    }
    result
}

/// A pair of coordinates as one word: the lower half holds the low bits of
/// `x`, the upper half the low bits of `y`, each from the least significant
/// bit on.
pub fn coords_to_binary<const N: usize>(x: u8, y: u8) -> (bits: [bool; N])
    ensures
        forall|i: int| 0 <= i < N / 2 ==> #[trigger] bits@[i] == bit_of(x, i),
        forall|i: int| N / 2 <= i < N ==> #[trigger] bits@[i] == bit_of(y, i - N / 2),
{
    let mut result = [false; N];
    let half = N / 2;
    let mut i: usize = 0;
    while i < half
        invariant
            half == N / 2,
            i <= half,
            forall|j: int| 0 <= j < i ==> #[trigger] result@[j] == bit_of(x, j),
        decreases half - i,
    {
        result[i] = test_bit(x, i);
        i += 1;
    }
    while i < N
        invariant
            half == N / 2,
            half <= i <= N,
            forall|j: int| 0 <= j < half ==> #[trigger] result@[j] == bit_of(x, j),
            forall|j: int| half <= j < i ==> #[trigger] result@[j] == bit_of(y, j - half),
        decreases N - i,
    {
        result[i] = test_bit(y, i - half);
        i += 1;
    }
    result
}

/// What a player keeps in the clear about the game.
#[derive(Debug, Clone)]
pub struct GameStateLocalView {
    user_id: UserId,
    my_x: u8,
    my_y: u8,
    eggs_laid: Vec<Vec<bool>>,
}

/// The mathematical content of a [`GameStateLocalView`].
pub struct LocalView {
    pub user_id: UserId,
    /// Row and column of the player.
    pub coord: (u8, u8),
    /// `eggs[row][column]` says whether the player laid an egg there.
    pub eggs: Seq<Seq<bool>>,
}

/// The cell one step from `coord` in direction `dir`, on a board that wraps.
pub open spec fn stepped(coord: (u8, u8), dir: Direction) -> (u8, u8) {
    match dir {
        Direction::Up => (((coord.0 + BOARD_DIM - 1) % BOARD_DIM as int) as u8, coord.1),
        Direction::Down => (((coord.0 + 1) % BOARD_DIM as int) as u8, coord.1),
        Direction::Left => (coord.0, ((coord.1 + BOARD_DIM - 1) % BOARD_DIM as int) as u8),
        Direction::Right => (coord.0, ((coord.1 + 1) % BOARD_DIM as int) as u8),
    }
}

/// A board without eggs.
pub open spec fn no_eggs() -> Seq<Seq<bool>> {
    Seq::new(BOARD_DIM as nat, |r: int| Seq::new(BOARD_DIM as nat, |c: int| false))
}

/// The egg grid with the cell at `coord` set to `egg`.
pub open spec fn with_egg(eggs: Seq<Seq<bool>>, coord: (u8, u8), egg: bool) -> Seq<Seq<bool>> {
    eggs.update(coord.0 as int, eggs[coord.0 as int].update(coord.1 as int, egg))
}

impl View for GameStateLocalView {
    type V = LocalView;

    closed spec fn view(&self) -> LocalView {
        LocalView {
            user_id: self.user_id,
            coord: (self.my_x, self.my_y),
            eggs: Seq::new(self.eggs_laid@.len(), |r: int| self.eggs_laid@[r]@),
        }
    }
}

impl LocalView {
    /// The egg grid has the size of the board.
    pub open spec fn grid_ok(self) -> bool {
        &&& self.eggs.len() == BOARD_DIM
        &&& forall|r: int| 0 <= r < BOARD_DIM ==> (#[trigger] self.eggs[r]).len() == BOARD_DIM
    }

    /// The player stands on the board.
    pub open spec fn on_board(self) -> bool {
        self.coord.0 < BOARD_DIM && self.coord.1 < BOARD_DIM
    }
}

impl GameStateLocalView {
    /// A player at row `x` and column `y` who has laid no egg yet.
    pub fn new(x: u8, y: u8, user_id: UserId) -> (view: Self)
        ensures
            view@.user_id == user_id,
            view@.coord == (x, y),
            view@.eggs == no_eggs(),
            view@.grid_ok(),
    {
        let mut eggs_laid: Vec<Vec<bool>> = Vec::new();
        let mut r: usize = 0;
        while r < BOARD_DIM
            invariant
                r <= BOARD_DIM,
                eggs_laid@.len() == r,
                forall|i: int|
                    0 <= i < r ==> (#[trigger] eggs_laid@[i])@ == Seq::new(
                        BOARD_DIM as nat,
                        |c: int| false,
                    ),
            decreases BOARD_DIM - r,
        {
            let mut row: Vec<bool> = Vec::new();
            let mut c: usize = 0;
            while c < BOARD_DIM
                invariant
                    c <= BOARD_DIM,
                    row@.len() == c,
                    forall|j: int| 0 <= j < c ==> !#[trigger] row@[j],
                decreases BOARD_DIM - c,
            {
                row.push(false);
                c += 1;
            }
            assert(row@ =~= Seq::new(BOARD_DIM as nat, |c: int| false));
            eggs_laid.push(row);
            r += 1;
        }
        let view = Self { user_id, my_x: x, my_y: y, eggs_laid };
        assert(view@.eggs =~= no_eggs());
        view
    }

    /// The player's number.
    pub fn user_id(&self) -> (id: UserId)
        ensures
            id == self@.user_id,
    {
        self.user_id
    }

    /// Row and column of the player.
    pub fn coord(&self) -> (c: (u8, u8))
        ensures
            c == self@.coord,
    {
        (self.my_x, self.my_y)
    }

    /// Moves the player one cell. A step over an edge comes back in at the
    /// opposite edge, so a player on the board stays on it.
    pub fn move_player(&mut self, dir: Direction)
        ensures
            final(self)@.coord == stepped(old(self)@.coord, dir),
            final(self)@.user_id == old(self)@.user_id,
            final(self)@.eggs == old(self)@.eggs,
            old(self)@.on_board() ==> final(self)@.on_board(),
    {
        let dim = BOARD_DIM as u8;
        match dir {
            Direction::Up => {
                self.my_x = (self.my_x % dim + (dim - 1)) % dim;
            },
            Direction::Down => {
                self.my_x = (self.my_x % dim + 1) % dim;
            },
            Direction::Left => {
                self.my_y = (self.my_y % dim + (dim - 1)) % dim;
            },
            Direction::Right => {
                self.my_y = (self.my_y % dim + 1) % dim;
            },
        }
    }

    /// The egg flag of the cell the player stands on, for reading and
    /// writing.
    pub fn get_egg(&mut self) -> (egg: &mut bool)
        requires
            old(self)@.grid_ok(),
            old(self)@.on_board(),
        ensures
            *egg == old(self)@.eggs[old(self)@.coord.0 as int][old(self)@.coord.1 as int],
            final(self)@.eggs == with_egg(old(self)@.eggs, old(self)@.coord, *final(egg)),
            final(self)@.coord == old(self)@.coord,
            final(self)@.user_id == old(self)@.user_id,
    {
        let x = self.my_x as usize;
        let y = self.my_y as usize;
        assert(self@.eggs[x as int] == self.eggs_laid@[x as int]@);
        &mut self.eggs_laid[x][y]
    }

    /// Lays an egg on the cell the player stands on.
    pub fn lay(&mut self)
        requires
            old(self)@.grid_ok(),
            old(self)@.on_board(),
        ensures
            final(self)@.eggs == with_egg(old(self)@.eggs, old(self)@.coord, true),
            final(self)@.coord == old(self)@.coord,
            final(self)@.user_id == old(self)@.user_id,
            final(self)@.grid_ok(),
    {
        let egg = self.get_egg();
        *egg = true;
    }

    /// Takes the egg, if there is one, from the cell the player stands on.
    pub fn pickup(&mut self)
        requires
            old(self)@.grid_ok(),
            old(self)@.on_board(),
        ensures
            final(self)@.eggs == with_egg(old(self)@.eggs, old(self)@.coord, false),
            final(self)@.coord == old(self)@.coord,
            final(self)@.user_id == old(self)@.user_id,
            final(self)@.grid_ok(),
    {
        let egg = self.get_egg();
        *egg = false;
    }
}

/// How a player is drawn: its number behind a rooster, in brackets.
pub open spec fn player_mark(user_id: UserId) -> Seq<char> {
    "(\u{1F413}"@ + decimal(user_id as nat) + ")"@
}

/// What the local view shows in the cell at `row` and `col`: the player if
/// it stands there and a blank if not, followed by an egg if the player
/// has laid one there.
pub open spec fn local_cell(view: LocalView, row: int, col: int) -> Seq<char> {
    let ground = if view.coord.0 == row && view.coord.1 == col {
        player_mark(view.user_id)
    } else {
        "_"@
    };
    if view.eggs[row][col] {
        ground + "\u{1F95A}"@
    } else {
        ground
    }
}

/// The marks of those of the first `count` players whose bit is set in
/// `output`, in the order of their numbers.
pub open spec fn players_seen(output: Seq<bool>, count: nat) -> Seq<char>
    decreases count,
{
    if count == 0 {
        Seq::empty()
    } else {
        let earlier = players_seen(output, (count - 1) as nat);
        if output[count - 1] {
            earlier + player_mark((count - 1) as usize)
        } else {
            earlier
        }
    }
}

/// What the opened output shows in the player's own cell: the players that
/// stand there, and an egg if there is one. The output holds a bit for each
/// of the players and, after them, the bit of the egg.
pub open spec fn seen_cell(output: Seq<bool>) -> Seq<char> {
    let players = players_seen(output, BOARD_DIM as nat);
    if output[BOARD_DIM as int] {
        players + "\u{1F95A}"@
    } else {
        players
    }
}

/// What the view of the whole board shows in the cell at `row` and `col`:
/// the opened output in the player's own cell and fog everywhere else.
pub open spec fn global_cell(view: LocalView, output: Seq<bool>, row: int, col: int) -> Seq<char> {
    if view.coord.0 == row && view.coord.1 == col {
        seen_cell(output)
    } else {
        "\u{1F32B}\u{FE0F}"@
    }
}

/// `cells` is row `row` of the board as the player knows it.
pub open spec fn is_local_row(cells: Seq<String>, view: LocalView, row: int) -> bool {
    &&& cells.len() == BOARD_DIM
    &&& forall|c: int| 0 <= c < BOARD_DIM ==> (#[trigger] cells[c])@ == local_cell(view, row, c)
}

/// `cells` is row `row` of the board as the opened output shows it.
pub open spec fn is_global_row(
    cells: Seq<String>,
    view: LocalView,
    output: Seq<bool>,
    row: int,
) -> bool {
    &&& cells.len() == BOARD_DIM
    &&& forall|c: int|
        0 <= c < BOARD_DIM ==> (#[trigger] cells[c])@ == global_cell(view, output, row, c)
}

fn player_text(user_id: UserId) -> (s: String)
    ensures
        s@ == player_mark(user_id),
{
    let id = decimal_string(user_id);
    String::from_str("(\u{1F413}").concat(id.as_str()).concat(")")
}

impl GameStateLocalView {
    /// The board as the player knows it, row by row.
    pub fn rows(&self) -> (data: Vec<Vec<String>>)
        requires
            self@.grid_ok(),
        ensures
            data@.len() == BOARD_DIM,
            forall|r: int| 0 <= r < BOARD_DIM ==> is_local_row((#[trigger] data@[r])@, self@, r),
    {
        let mut data: Vec<Vec<String>> = Vec::new();
        let mut x: usize = 0;
        while x < BOARD_DIM
            invariant
                x <= BOARD_DIM,
                self@.grid_ok(),
                data@.len() == x,
                forall|r: int| 0 <= r < x ==> is_local_row((#[trigger] data@[r])@, self@, r),
            decreases BOARD_DIM - x,
        {
            let mut cells: Vec<String> = Vec::new();
            let mut y: usize = 0;
            while y < BOARD_DIM
                invariant
                    x < BOARD_DIM,
                    y <= BOARD_DIM,
                    self@.grid_ok(),
                    cells@.len() == y,
                    forall|c: int|
                        0 <= c < y ==> (#[trigger] cells@[c])@ == local_cell(self@, x as int, c),
                decreases BOARD_DIM - y,
            {
                let ground = if self.my_x as usize == x && self.my_y as usize == y {
                    player_text(self.user_id)
                } else {
                    String::from_str("_")
                };
                assert(self@.eggs[x as int] == self.eggs_laid@[x as int]@);
                assert(self@.eggs[x as int].len() == BOARD_DIM);
                let cell = if self.eggs_laid[x][y] {
                    ground.concat("\u{1F95A}")
                } else {
                    ground
                };
                cells.push(cell);
                y += 1;
            }
            data.push(cells);
            x += 1;
        }
        data
    }

    /// The whole board as the opened output lets the player see it, row by
    /// row: its own cell in the clear, the rest in fog.
    pub fn rows_with_output(&self, output: &[bool]) -> (data: Vec<Vec<String>>)
        requires
            output@.len() > BOARD_DIM,
        ensures
            data@.len() == BOARD_DIM,
            forall|r: int|
                0 <= r < BOARD_DIM ==> is_global_row((#[trigger] data@[r])@, self@, output@, r),
    {
        let mut data: Vec<Vec<String>> = Vec::new();
        let mut x: usize = 0;
        while x < BOARD_DIM
            invariant
                x <= BOARD_DIM,
                output@.len() > BOARD_DIM,
                data@.len() == x,
                forall|r: int|
                    0 <= r < x ==> is_global_row((#[trigger] data@[r])@, self@, output@, r),
            decreases BOARD_DIM - x,
        {
            let mut cells: Vec<String> = Vec::new();
            let mut y: usize = 0;
            while y < BOARD_DIM
                invariant
                    x < BOARD_DIM,
                    y <= BOARD_DIM,
                    output@.len() > BOARD_DIM,
                    cells@.len() == y,
                    forall|c: int|
                        0 <= c < y ==> (#[trigger] cells@[c])@ == global_cell(
                            self@,
                            output@,
                            x as int,
                            c,
                        ),
                decreases BOARD_DIM - y,
            {
                let cell = if self.my_x as usize == x && self.my_y as usize == y {
                    let mut seen = String::new();
                    let mut user: usize = 0;
                    while user < BOARD_DIM
                        invariant
                            user <= BOARD_DIM,
                            output@.len() > BOARD_DIM,
                            seen@ == players_seen(output@, user as nat),
                        decreases BOARD_DIM - user,
                    {
                        if output[user] {
                            let mark = player_text(user);
                            seen.append(mark.as_str());
                        }
                        user += 1;
                    }
                    if output[BOARD_DIM] {
                        seen.append("\u{1F95A}");
                    }
                    seen
                } else {
                    String::from_str("\u{1F32B}\u{FE0F}")
                };
                cells.push(cell);
                y += 1;
            }
            data.push(cells);
            x += 1;
        }
        data
    }
}

} // verus!
