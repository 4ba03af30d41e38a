//! The state the server keeps for one computation, and the operations that
//! may change it.
//!
//! Every operation looks at the phase first. An operation that does not
//! belong to the phase at hand answers with an error and changes nothing.

use vstd::prelude::*;
use vstd::string::*;
use crate::actions::{GameStateEnc, UserAction};
use crate::board::UserId;
use crate::dashboard::{Dashboard, RegisteredUser, UserStatus};
use crate::shares::CircuitOutput;
use crate::state::{Error, ServerState};
use crate::users::{DecryptionShare, UserRecord, UserStorage};

verus! {

/// The seed from which all participants derive the common reference string.
pub type Seed = [u8; 32];

/// Which protocol the server runs.
#[derive(Debug, Clone, Copy, PartialEq, Eq, Structural)]
pub enum Flavor {
    /// The computation runs as soon as every participant has handed in its
    /// key material.
    Karma,
    /// A game is set up once the key material is in, and the computation
    /// runs after each action of a player.
    Game,
}

/// A pending action together with the player who asked for it.
pub type QueuedAction<W> = (UserId, UserAction<Vec<W>>);

/// The server's state. `K` is the key material of a participant, `W` a wire.
#[derive(Debug)]
pub struct ServerStorage<K, W> {
    seed: Seed,
    flavor: Flavor,
    quota: usize,
    state: ServerState,
    users: Vec<UserRecord<K>>,
    game_state: Option<GameStateEnc<W>>,
    action_queue: Vec<QueuedAction<W>>,
    circuit_output: Option<Vec<CircuitOutput<W>>>,
    round: usize,
}

/// The mathematical content of a [`ServerStorage`].
pub struct StorageModel<K, W> {
    pub seed: Seed,
    pub flavor: Flavor,
    /// Registration closes when this many participants have joined.
    pub quota: usize,
    pub state: ServerState,
    pub users: Seq<UserRecord<K>>,
    pub game_state: Option<GameStateEnc<W>>,
    pub action_queue: Seq<QueuedAction<W>>,
    /// The output words of the round, once it has run.
    pub circuit_output: Option<Vec<CircuitOutput<W>>>,
    /// Number of rounds that have been closed.
    pub round: usize,
}

impl<K, W> View for ServerStorage<K, W> {
    type V = StorageModel<K, W>;

    closed spec fn view(&self) -> StorageModel<K, W> {
        StorageModel {
            seed: self.seed,
            flavor: self.flavor,
            quota: self.quota,
            state: self.state,
            users: self.users@,
            game_state: self.game_state,
            action_queue: self.action_queue@,
            circuit_output: self.circuit_output,
            round: self.round,
        }
    }
}

/// `after` is `before` with one more participant, who has the next number,
/// the name `name` and nothing handed in.
pub open spec fn joined<K>(
    before: Seq<UserRecord<K>>,
    after: Seq<UserRecord<K>>,
    name: Seq<char>,
) -> bool {
    &&& after.len() == before.len() + 1
    &&& after.take(before.len() as int) == before
    &&& after.last().id == before.len()
    &&& after.last().name@ == name
    &&& after.last().storage is Empty
    &&& !after.last().ready_for_new_round
}

/// The phase after one more participant has joined.
pub open spec fn state_after_joining(count: nat, quota: usize) -> ServerState {
    if count == quota {
        ServerState::ReadyForServerKeyShares
    } else {
        ServerState::ReadyForJoining
    }
}

/// How far a slot has come in a round.
pub open spec fn slot_rank<K>(storage: UserStorage<K>) -> nat {
    match storage {
        UserStorage::Empty => 0,
        UserStorage::Sks(_) => 1,
        UserStorage::StartingCoords => 2,
        UserStorage::DecryptionShare(None) => 3,
        UserStorage::DecryptionShare(Some(_)) => 4,
    }
}

/// What a slot may hold while the server is in phase `state`.
pub open spec fn slot_fits<K>(state: ServerState, flavor: Flavor, storage: UserStorage<K>) -> bool {
    match state {
        ServerState::ReadyForJoining => storage is Empty,
        ServerState::ReadyForServerKeyShares => storage is Empty || storage is Sks,
        ServerState::ReadyForSetupGame => storage is Sks || storage is StartingCoords,
        ServerState::ReadyForRunning => match flavor {
            Flavor::Karma => storage is Sks,
            Flavor::Game => storage is DecryptionShare,
        },
        _ => storage is DecryptionShare,
    }
}

impl<K, W> StorageModel<K, W> {
    /// What holds of the server whatever has been asked of it: the
    /// participants are numbered in the order of their joining, every slot
    /// holds what belongs to the phase, only a game is set up and takes
    /// actions, a game that waits for actions or for its run is there, and
    /// a round that is over has its outputs and, in a game, the game.
    pub open spec fn wf(self) -> bool {
        &&& forall|i: int| 0 <= i < self.users.len() ==> (#[trigger] self.users[i]).id == i
        &&& forall|i: int|
            0 <= i < self.users.len() ==> slot_fits(
                self.state,
                self.flavor,
                (#[trigger] self.users[i]).storage,
            )
        &&& (self.state == ServerState::ReadyForSetupGame || self.state
            == ServerState::ReadyForActions) ==> self.flavor == Flavor::Game
        &&& self.flavor == Flavor::Game && (self.state == ServerState::ReadyForActions || self.state
            == ServerState::ReadyForRunning || self.state == ServerState::CompletedFhe)
            ==> self.game_state is Some
        &&& self.state == ServerState::CompletedFhe ==> self.circuit_output is Some
    }

    /// One operation may take the server from `self` to `next`: nobody
    /// leaves, somebody joins only while registration is open, and no slot
    /// goes back unless the operation has closed a round.
    pub open spec fn leads_to(self, next: Self) -> bool {
        &&& next.users.len() >= self.users.len()
        &&& next.users.len() > self.users.len() ==> self.state == ServerState::ReadyForJoining
        &&& (self.state == ServerState::CompletedFhe && next.state != ServerState::CompletedFhe)
            || forall|i: int|
            0 <= i < self.users.len() ==> slot_rank((#[trigger] next.users[i]).storage)
                >= slot_rank(self.users[i].storage)
    }
}

impl<K, W> ServerStorage<K, W> {
    /// A server that waits for `quota` participants to join.
    pub fn new(seed: Seed, flavor: Flavor, quota: usize) -> (r: Self)
        ensures
            r@ == (StorageModel::<K, W> {
                seed,
                flavor,
                quota,
                state: ServerState::ReadyForJoining,
                users: Seq::empty(),
                game_state: None,
                action_queue: Seq::empty(),
                circuit_output: None,
                round: 0,
            }),
            r@.wf(),
    {
        Self {
            seed,
            flavor,
            quota,
            state: ServerState::ReadyForJoining,
            users: Vec::new(),
            game_state: None,
            action_queue: Vec::new(),
            circuit_output: None,
            round: 0,
        }
    }

    pub fn seed(&self) -> (seed: Seed)
        ensures
            seed == self@.seed,
    {
        self.seed
    }

    pub fn state(&self) -> (state: ServerState)
        ensures
            state == self@.state,
    {
        self.state
    }

    pub fn flavor(&self) -> (flavor: Flavor)
        ensures
            flavor == self@.flavor,
    {
        self.flavor
    }

    pub fn round(&self) -> (round: usize)
        ensures
            round == self@.round,
    {
        self.round
    }

    /// The number of participants that have joined.
    pub fn user_count(&self) -> (count: usize)
        ensures
            count == self@.users.len(),
    {
        self.users.len()
    }

    /// Passes if the server is in phase `state`.
    pub fn ensure(&self, state: ServerState) -> (r: Result<(), Error>)
        ensures
            self@.state == state ==> r == Ok::<(), Error>(()),
            self@.state != state ==> r == Err::<(), Error>(
                Error::WrongState { expected: state, actual: self@.state },
            ),
    {
        match self.state.ensure(state) {
            Ok(_) => Ok(()),
            Err(e) => Err(e),
        }
    }

    fn transit(&mut self, state: ServerState)
        ensures
            final(self)@ == (StorageModel { state, ..old(self)@ }),
    {
        self.state.transit(state);
    }

    fn add_user(&mut self, name: &str) -> (user: RegisteredUser)
        ensures
            final(self)@ == (StorageModel { users: final(self)@.users, ..old(self)@ }),
            joined(old(self)@.users, final(self)@.users, name@),
            user.id == old(self)@.users.len(),
            user.name@ == name@,
            user.status == UserStatus::IDAcquired,
    {
        let user_id: usize = self.users.len();
        self.users.push(
            UserRecord {
                id: user_id,
                name: String::from_str(name),
                storage: UserStorage::Empty,
                ready_for_new_round: false,
            },
        );
        assert(self.users@.take(user_id as int) =~= old(self).users@);
        RegisteredUser::new(user_id, name)
    }

    /// Lets a participant join under the name `name` and gives it the next
    /// number. Registration closes when the quota is reached.
    pub fn register(&mut self, name: &str) -> (r: Result<RegisteredUser, Error>)
        ensures
            old(self)@.state != ServerState::ReadyForJoining ==> r is Err && r->Err_0 == (
            Error::WrongState {
                expected: ServerState::ReadyForJoining,
                actual: old(self)@.state,
            }) && *final(self) == *old(self),
            old(self)@.state == ServerState::ReadyForJoining ==> {
                &&& r matches Ok(user)
                &&& user.id == old(self)@.users.len()
                &&& user.name@ == name@
                &&& user.status == UserStatus::IDAcquired
                &&& joined(old(self)@.users, final(self)@.users, name@)
                &&& final(self)@ == (StorageModel {
                    users: final(self)@.users,
                    state: state_after_joining(final(self)@.users.len(), old(self)@.quota),
                    ..old(self)@
                })
            },
            old(self)@.wf() ==> final(self)@.wf() && old(self)@.leads_to(final(self)@),
    {
        if let Err(e) = self.ensure(ServerState::ReadyForJoining) {
            return Err(e);
        }
        let user = self.add_user(name);
        if self.users.len() == self.quota {
            self.transit(ServerState::ReadyForServerKeyShares);
        }
        proof {
            let before = old(self)@.users;
            let after = self@.users;
            assert forall|i: int| 0 <= i < before.len() implies #[trigger] after[i] == before[i] by {
                assert(after.take(before.len() as int)[i] == after[i]);
            }
        }
        Ok(user)
    }
}

/// Every participant holds a key share.
pub open spec fn all_have_sks<K>(users: Seq<UserRecord<K>>) -> bool {
    forall|i: int| 0 <= i < users.len() ==> (#[trigger] users[i]).storage is Sks
}

/// Every participant has set its starting coordinates.
pub open spec fn all_have_coords<K>(users: Seq<UserRecord<K>>) -> bool {
    forall|i: int| 0 <= i < users.len() ==> (#[trigger] users[i]).storage is StartingCoords
}

/// The first participant without a key share, or the number of
/// participants if there is none.
pub open spec fn first_without_sks<K>(users: Seq<UserRecord<K>>) -> nat
    decreases users.len(),
{
    if users.len() == 0 {
        0
    } else if !(users[0].storage is Sks) {
        0
    } else {
        1 + first_without_sks(users.drop_first())
    }
}

/// The first `count` participants hold a key share.
spec fn sks_up_to<K>(users: Seq<UserRecord<K>>, count: int) -> bool {
    forall|i: int| 0 <= i < count ==> (#[trigger] users[i]).storage is Sks
}

proof fn lemma_first_without_sks<K>(users: Seq<UserRecord<K>>, i: int)
    requires
        0 <= i <= users.len(),
        sks_up_to(users, i),
        i < users.len() ==> !(users[i].storage is Sks),
    ensures
        first_without_sks(users) == i,
        i == users.len() <==> all_have_sks(users),
    decreases users.len(),
{
    if users.len() == 0 {
    } else if i == 0 {
    } else {
        let rest = users.drop_first();
        assert(users[0].storage is Sks);
        assert forall|j: int| 0 <= j < i - 1 implies (#[trigger] rest[j]).storage is Sks by {
            assert(users[j + 1].storage is Sks);
        }
        lemma_first_without_sks(rest, i - 1);
    }
}

/// The phase that follows once every key share is in.
pub open spec fn state_after_keys(flavor: Flavor) -> ServerState {
    match flavor {
        Flavor::Karma => ServerState::ReadyForRunning,
        Flavor::Game => ServerState::ReadyForSetupGame,
    }
}

impl<K, W> ServerStorage<K, W> {
    /// The record of participant `user_id`.
    pub fn get_user(&self, user_id: UserId) -> (r: Result<&UserRecord<K>, Error>)
        ensures
            user_id < self@.users.len() ==> r == Ok::<&UserRecord<K>, Error>(
                &self@.users[user_id as int],
            ),
            user_id >= self@.users.len() ==> r == Err::<&UserRecord<K>, Error>(
                Error::UnregisteredUser { user_id },
            ),
    {
        if user_id < self.users.len() {
            Ok(&self.users[user_id])
        } else {
            Err(Error::UnregisteredUser { user_id })
        }
    }

    /// Whether every participant holds a key share.
    pub fn check_cipher_submission(&self) -> (b: bool)
        ensures
            b == all_have_sks(self@.users),
    {
        let mut i: usize = 0;
        while i < self.users.len()
            invariant
                i <= self.users@.len(),
                sks_up_to(self.users@, i as int),
            decreases self.users@.len() - i,
        {
            match self.users[i].storage {
                UserStorage::Sks(_) => {},
                _ => {
                    return false;
                },
            }
            i += 1;
        }
        true
    }

    /// Whether every participant has set its starting coordinates.
    pub fn check_setup_game_complete(&self) -> (b: bool)
        ensures
            b == all_have_coords(self@.users),
    {
        let mut i: usize = 0;
        while i < self.users.len()
            invariant
                i <= self.users@.len(),
                forall|j: int| 0 <= j < i ==> (#[trigger] self.users@[j]).storage is StartingCoords,
            decreases self.users@.len() - i,
        {
            match self.users[i].storage {
                UserStorage::StartingCoords => {},
                _ => {
                    return false;
                },
            }
            i += 1;
        }
        true
    }

    /// The key shares of all participants in the order of their numbers,
    /// or the first participant whose share is missing.
    pub fn get_sks(&self) -> (r: Result<Vec<&K>, Error>)
        ensures
            all_have_sks(self@.users) ==> (r matches Ok(shares) && shares@.len()
                == self@.users.len() && (forall|i: int|
                0 <= i < shares@.len() ==> *(#[trigger] shares@[i])
                    == self@.users[i].storage->Sks_0)),
            !all_have_sks(self@.users) ==> r is Err && r->Err_0 == (Error::MissingSubmission {
                user_id: first_without_sks(self@.users) as usize,
            }),
    {
        let mut server_key_shares: Vec<&K> = Vec::new();
        let mut user_id: usize = 0;
        while user_id < self.users.len()
            invariant
                user_id <= self.users@.len(),
                sks_up_to(self.users@, user_id as int),
                server_key_shares@.len() == user_id,
                forall|i: int|
                    0 <= i < user_id ==> *(#[trigger] server_key_shares@[i])
                        == self.users@[i].storage->Sks_0,
            decreases self.users@.len() - user_id,
        {
            match self.users[user_id].storage.get_cipher_sks() {
                Some(sks) => {
                    server_key_shares.push(sks);
                },
                None => {
                    proof {
                        lemma_first_without_sks(self.users@, user_id as int);
                    }
                    return Err(Error::MissingSubmission { user_id });
                },
            }
            user_id += 1;
        }
        proof {
            lemma_first_without_sks(self.users@, user_id as int);
        }
        Ok(server_key_shares)
    }

    /// Takes the key share of participant `user_id`. Once every share is
    /// in, a karma round is ready to run and a game is ready to be set up.
    pub fn submit_sks(&mut self, user_id: UserId, sks: K) -> (r: Result<UserId, Error>)
        ensures
            old(self)@.state != ServerState::ReadyForServerKeyShares ==> r is Err && r->Err_0 == (
            Error::WrongState {
                expected: ServerState::ReadyForServerKeyShares,
                actual: old(self)@.state,
            }) && *final(self) == *old(self),
            old(self)@.state == ServerState::ReadyForServerKeyShares && user_id >= old(self)@.users.len() ==> r is Err && r->Err_0 == (Error::UnregisteredUser { user_id })
                && *final(self) == *old(self),
            old(self)@.state == ServerState::ReadyForServerKeyShares && user_id < old(self)@.users.len() ==> {
                let users = old(self)@.users.update(
                    user_id as int,
                    UserRecord { storage: UserStorage::Sks(sks), ..old(self)@.users[user_id as int] },
                );
                &&& r == Ok::<UserId, Error>(user_id)
                &&& final(self)@ == (StorageModel {
                    users,
                    state: if all_have_sks(users) {
                        state_after_keys(old(self)@.flavor)
                    } else {
                        ServerState::ReadyForServerKeyShares
                    },
                    ..old(self)@
                })
            },
            old(self)@.wf() ==> final(self)@.wf() && old(self)@.leads_to(final(self)@),
    {
        if let Err(e) = self.ensure(ServerState::ReadyForServerKeyShares) {
            return Err(e);
        }
        if user_id >= self.users.len() {
            return Err(Error::UnregisteredUser { user_id });
        }
        self.users[user_id].storage = UserStorage::Sks(sks);
        if self.check_cipher_submission() {
            match self.flavor {
                Flavor::Karma => {
                    self.transit(ServerState::ReadyForRunning);
                },
                Flavor::Game => {
                    self.transit(ServerState::ReadyForSetupGame);
                },
            }
        }
        Ok(user_id)
    }

    /// The phase, the participants with their status, and the round.
    pub fn get_dashboard(&self) -> (dashboard: Dashboard)
        ensures
            dashboard.status() == self@.state,
            dashboard.round() == self@.round,
            dashboard.users().len() == self@.users.len(),
            forall|i: int|
                0 <= i < self@.users.len() ==> {
                    let shown = #[trigger] dashboard.users()[i];
                    &&& shown.id == self@.users[i].id
                    &&& shown.name@ == self@.users[i].name@
                    &&& shown.status == UserStatus::of(&self@.users[i].storage)
                },
    {
        let mut shown: Vec<RegisteredUser> = Vec::new();
        let mut i: usize = 0;
        while i < self.users.len()
            invariant
                i <= self.users@.len(),
                shown@.len() == i,
                forall|j: int|
                    0 <= j < i ==> {
                        let entry = #[trigger] shown@[j];
                        &&& entry.id == self.users@[j].id
                        &&& entry.name@ == self.users@[j].name@
                        &&& entry.status == UserStatus::of(&self.users@[j].storage)
                    },
            decreases self.users@.len() - i,
        {
            shown.push(RegisteredUser::from_record(&self.users[i]));
            i += 1;
        }
        Dashboard::new(&self.state, shown, self.round)
    }
}

/// The participants once their key material has been used: every slot
/// waits for decryption shares. With `new_round` the marks of being done
/// with the last round are wiped as well.
pub open spec fn awaiting_shares<K>(users: Seq<UserRecord<K>>, new_round: bool) -> Seq<
    UserRecord<K>,
> {
    Seq::new(
        users.len(),
        |i: int|
            UserRecord {
                storage: UserStorage::DecryptionShare(None),
                ready_for_new_round: if new_round {
                    false
                } else {
                    users[i].ready_for_new_round
                },
                ..users[i]
            },
    )
}

/// `coords` with absent entries added at the end until there are `len`.
pub open spec fn padded<W>(coords: Seq<Option<Vec<W>>>, len: int) -> Seq<Option<Vec<W>>> {
    if coords.len() >= len {
        coords
    } else {
        coords + Seq::new((len - coords.len()) as nat, |i: int| None)
    }
}

/// The coordinates a game starts with when nothing has been set.
pub open spec fn coords_before<W>(game_state: Option<GameStateEnc<W>>, users: nat) -> Seq<
    Option<Vec<W>>,
> {
    match game_state {
        Some(game) => game.coords@,
        None => Seq::new(users, |i: int| None),
    }
}

fn await_shares<K>(users: &mut Vec<UserRecord<K>>, new_round: bool)
    ensures
        final(users)@ == awaiting_shares(old(users)@, new_round),
{
    let count = users.len();
    let mut i: usize = 0;
    while i < count
        invariant
            i <= count,
            count == old(users)@.len(),
            users@.len() == count,
            forall|j: int|
                0 <= j < i ==> #[trigger] users@[j] == awaiting_shares(old(users)@, new_round)[j],
            forall|j: int| i <= j < count ==> #[trigger] users@[j] == old(users)@[j],
        decreases count - i,
    {
        users[i].storage = UserStorage::DecryptionShare(None);
        if new_round {
            users[i].ready_for_new_round = false;
        }
        i += 1;
    }
    assert(users@ =~= awaiting_shares(old(users)@, new_round));
}

fn blank_coords<W>(count: usize) -> (coords: Vec<Option<Vec<W>>>)
    ensures
        coords@ == Seq::new(count as nat, |i: int| None::<Vec<W>>),
{
    let mut coords: Vec<Option<Vec<W>>> = Vec::new();
    let mut i: usize = 0;
    while i < count
        invariant
            i <= count,
            coords@.len() == i,
            forall|j: int| 0 <= j < i ==> (#[trigger] coords@[j] is None),
        decreases count - i,
    {
        coords.push(None);
        i += 1;
    }
    assert(coords@ =~= Seq::new(count as nat, |i: int| None::<Vec<W>>));
    coords
}

fn pad_coords<W>(coords: &mut Vec<Option<Vec<W>>>, len: usize)
    ensures
        final(coords)@ == padded(old(coords)@, len as int),
{
    while coords.len() < len
        invariant
            coords@.len() >= old(coords)@.len(),
            coords@.len() <= len || coords@ == old(coords)@,
            coords@.take(old(coords)@.len() as int) == old(coords)@,
            forall|j: int| old(coords)@.len() <= j < coords@.len() ==> (#[trigger] coords@[j] is None),
        decreases len - coords@.len(),
    {
        let ghost before = coords@;
        coords.push(None);
        assert(coords@.take(old(coords)@.len() as int) =~= before.take(old(coords)@.len() as int));
    }
    assert(coords@ =~= padded(old(coords)@, len as int));
}

impl<K, W> ServerStorage<K, W> {
    /// Sets up a game: the eggs on the board, or the starting coordinates
    /// of participant `user_id`. Once every participant has set its
    /// coordinates the game waits for actions.
    pub fn setup_game(&mut self, user_id: UserId, action: UserAction<Vec<W>>) -> (r: Result<
        UserId,
        Error,
    >)
        ensures
            old(self)@.state != ServerState::ReadyForSetupGame ==> r is Err && r->Err_0 == (
            Error::WrongState {
                expected: ServerState::ReadyForSetupGame,
                actual: old(self)@.state,
            }) && *final(self) == *old(self),
            old(self)@.state == ServerState::ReadyForSetupGame && user_id >= old(self)@.users.len()
                ==> r is Err && r->Err_0 == (Error::UnregisteredUser { user_id }) && *final(self)
                == *old(self),
            old(self)@.state == ServerState::ReadyForSetupGame && user_id < old(self)@.users.len()
                && !action.is_setup() ==> r is Err && r->Err_0 == (Error::WrongState {
                expected: ServerState::ReadyForSetupGame,
                actual: ServerState::ReadyForSetupGame,
            }) && *final(self) == *old(self),
            old(self)@.state == ServerState::ReadyForSetupGame && user_id < old(self)@.users.len()
                ==> (action matches UserAction::InitGame { initial_eggs } ==> {
                &&& r == Ok::<UserId, Error>(user_id)
                &&& final(self)@ == (StorageModel {
                    game_state: final(self)@.game_state,
                    ..old(self)@
                })
                &&& final(self)@.game_state matches Some(game)
                &&& game.eggs == initial_eggs
                &&& game.coords@ == coords_before(old(self)@.game_state, old(self)@.users.len())
            }),
            old(self)@.state == ServerState::ReadyForSetupGame && user_id < old(self)@.users.len()
                ==> (action matches UserAction::SetStartingCoord { starting_coord } ==> {
                let placed = old(self)@.users.update(
                    user_id as int,
                    UserRecord {
                        storage: UserStorage::StartingCoords,
                        ..old(self)@.users[user_id as int]
                    },
                );
                &&& r == Ok::<UserId, Error>(user_id)
                &&& final(self)@ == (StorageModel {
                    game_state: final(self)@.game_state,
                    users: if all_have_coords(placed) {
                        awaiting_shares(placed, false)
                    } else {
                        placed
                    },
                    state: if all_have_coords(placed) {
                        ServerState::ReadyForActions
                    } else {
                        ServerState::ReadyForSetupGame
                    },
                    ..old(self)@
                })
                &&& final(self)@.game_state matches Some(game)
                &&& game.coords@ == padded(
                    coords_before(old(self)@.game_state, old(self)@.users.len()),
                    user_id + 1,
                ).update(user_id as int, Some(starting_coord))
                &&& game.eggs@ == (match old(self)@.game_state {
                    Some(before) => before.eggs@,
                    None => Seq::empty(),
                })
            }),
            old(self)@.wf() ==> final(self)@.wf() && old(self)@.leads_to(final(self)@),
    {
        if let Err(e) = self.ensure(ServerState::ReadyForSetupGame) {
            return Err(e);
        }
        if user_id >= self.users.len() {
            return Err(Error::UnregisteredUser { user_id });
        }
        match action {
            UserAction::InitGame { initial_eggs } => {
                match self.game_state.take() {
                    Some(game) => {
                        self.game_state = Some(GameStateEnc { coords: game.coords, eggs: initial_eggs });
                    },
                    None => {
                        let coords = blank_coords(self.users.len());
                        self.game_state = Some(GameStateEnc { coords, eggs: initial_eggs });
                    },
                }
                Ok(user_id)
            },
            UserAction::SetStartingCoord { starting_coord } => {
                self.users[user_id].storage = UserStorage::StartingCoords;
                let (mut coords, eggs) = match self.game_state.take() {
                    Some(game) => (game.coords, game.eggs),
                    None => (blank_coords(self.users.len()), Vec::new()),
                };
                pad_coords(&mut coords, user_id + 1);
                coords.set(user_id, Some(starting_coord));
                self.game_state = Some(GameStateEnc { coords, eggs });
                if self.check_setup_game_complete() {
                    self.transit(ServerState::ReadyForActions);
                    await_shares(&mut self.users, false);
                }
                Ok(user_id)
            },
            _ => Err(
                Error::WrongState {
                    expected: ServerState::ReadyForSetupGame,
                    actual: self.state,
                },
            ),
        }
    }

    /// Queues the action of participant `user_id` and makes the server
    /// ready to run.
    pub fn request_action(&mut self, user_id: UserId, action: UserAction<Vec<W>>) -> (r: Result<
        UserId,
        Error,
    >)
        ensures
            old(self)@.state != ServerState::ReadyForActions ==> r is Err && r->Err_0 == (
            Error::WrongState {
                expected: ServerState::ReadyForActions,
                actual: old(self)@.state,
            }) && *final(self) == *old(self),
            old(self)@.state == ServerState::ReadyForActions && user_id >= old(self)@.users.len()
                ==> r is Err && r->Err_0 == (Error::UnregisteredUser { user_id }) && *final(self)
                == *old(self),
            old(self)@.state == ServerState::ReadyForActions && user_id < old(self)@.users.len()
                && !action.is_queueable() ==> r is Err && r->Err_0 == (Error::WrongState {
                expected: ServerState::ReadyForActions,
                actual: ServerState::ReadyForActions,
            }) && *final(self) == *old(self),
            old(self)@.state == ServerState::ReadyForActions && user_id < old(self)@.users.len()
                && action.is_queueable() ==> r == Ok::<UserId, Error>(user_id) && final(self)@ == (
            StorageModel {
                action_queue: old(self)@.action_queue.push((user_id, action)),
                state: ServerState::ReadyForRunning,
                ..old(self)@
            }),
            old(self)@.wf() ==> final(self)@.wf() && old(self)@.leads_to(final(self)@),
    {
        if let Err(e) = self.ensure(ServerState::ReadyForActions) {
            return Err(e);
        }
        if user_id >= self.users.len() {
            return Err(Error::UnregisteredUser { user_id });
        }
        if action.is_queueable() {
            self.action_queue.push((user_id, action));
            self.transit(ServerState::ReadyForRunning);
            Ok(user_id)
        } else {
            Err(
                Error::WrongState {
                    expected: ServerState::ReadyForActions,
                    actual: self.state,
                },
            )
        }
    }
}

/// The participants with nothing handed in and no mark of being done.
pub open spec fn with_empty_slots<K>(users: Seq<UserRecord<K>>) -> Seq<UserRecord<K>> {
    Seq::new(
        users.len(),
        |i: int|
            UserRecord { storage: UserStorage::Empty, ready_for_new_round: false, ..users[i] },
    )
}

/// The phase in which a new round begins.
pub open spec fn state_at_round_start(flavor: Flavor) -> ServerState {
    match flavor {
        Flavor::Karma => ServerState::ReadyForServerKeyShares,
        Flavor::Game => ServerState::ReadyForActions,
    }
}

/// The participants as a new round finds them.
pub open spec fn users_at_round_start<K>(flavor: Flavor, users: Seq<UserRecord<K>>) -> Seq<
    UserRecord<K>,
> {
    match flavor {
        Flavor::Karma => with_empty_slots(users),
        Flavor::Game => awaiting_shares(users, true),
    }
}

fn empty_slots<K>(users: &mut Vec<UserRecord<K>>)
    ensures
        final(users)@ == with_empty_slots(old(users)@),
{
    let count = users.len();
    let mut i: usize = 0;
    while i < count
        invariant
            i <= count,
            count == old(users)@.len(),
            users@.len() == count,
            forall|j: int| 0 <= j < i ==> #[trigger] users@[j] == with_empty_slots(old(users)@)[j],
            forall|j: int| i <= j < count ==> #[trigger] users@[j] == old(users)@[j],
        decreases count - i,
    {
        users[i].storage = UserStorage::Empty;
        users[i].ready_for_new_round = false;
        i += 1;
    }
    assert(users@ =~= with_empty_slots(old(users)@));
}

/// Every participant is done with the outputs of the round.
pub open spec fn all_ready<K>(users: Seq<UserRecord<K>>) -> bool {
    forall|i: int| 0 <= i < users.len() ==> (#[trigger] users[i]).ready_for_new_round
}

/// The number of the round after `round`. The count stops at the largest
/// number there is.
pub open spec fn next_round(round: usize) -> usize {
    if round < usize::MAX {
        (round + 1) as usize
    } else {
        round
    }
}

/// The key shares the participants hold, in the order of their numbers.
pub open spec fn key_material<K>(users: Seq<UserRecord<K>>) -> Seq<K> {
    Seq::new(users.len(), |i: int| users[i].storage->Sks_0)
}

/// What a computation starts from. It is handed out when the computation
/// is triggered and the server keeps none of it.
#[derive(Debug)]
pub struct RunInputs<K, W> {
    /// The key shares of all participants, in a karma round.
    pub key_material: Vec<K>,
    /// The game as it stands, in a game.
    pub game_state: Option<GameStateEnc<W>>,
    /// The actions to apply, oldest first.
    pub actions: Vec<QueuedAction<W>>,
    /// The participant who triggered the computation.
    pub user_id: UserId,
}

/// What a request to run the computation led to.
#[derive(Debug)]
pub enum RunOutcome<K, W> {
    /// The computation has not run yet. The caller has to run it on these
    /// inputs and to report its outputs with `complete_run`.
    Started(RunInputs<K, W>),
    /// The computation is under way.
    AlreadyRunning,
    /// The computation is over.
    AlreadyCompleted,
}

impl<K, W> RunOutcome<K, W> {
    /// The phase of the server after the request.
    pub open spec fn spec_state(&self) -> ServerState {
        match self {
            RunOutcome::Started(_) => ServerState::RunningFhe,
            RunOutcome::AlreadyRunning => ServerState::RunningFhe,
            RunOutcome::AlreadyCompleted => ServerState::CompletedFhe,
        }
    }

    #[verifier::when_used_as_spec(spec_state)]
    pub fn state(&self) -> (state: ServerState)
        ensures
            state == self.spec_state(),
    {
        match self {
            RunOutcome::Started(_) => ServerState::RunningFhe,
            RunOutcome::AlreadyRunning => ServerState::RunningFhe,
            RunOutcome::AlreadyCompleted => ServerState::CompletedFhe,
        }
    }
}

impl<K, W> StorageModel<K, W> {
    /// A request to run would start the computation: the server is ready
    /// to run and has what the computation needs.
    pub open spec fn can_start(self) -> bool {
        &&& self.state == ServerState::ReadyForRunning
        &&& match self.flavor {
            Flavor::Karma => all_have_sks(self.users),
            Flavor::Game => self.game_state is Some,
        }
    }

    /// The server after a request to run.
    pub open spec fn triggered(self) -> Self {
        if self.state != ServerState::ReadyForRunning {
            self
        } else {
            match self.flavor {
                Flavor::Karma => if all_have_sks(self.users) {
                    StorageModel {
                        state: ServerState::RunningFhe,
                        users: awaiting_shares(self.users, false),
                        ..self
                    }
                } else {
                    StorageModel { state: ServerState::ReadyForServerKeyShares, ..self }
                },
                Flavor::Game => if self.game_state is Some {
                    StorageModel {
                        state: ServerState::RunningFhe,
                        game_state: None,
                        action_queue: Seq::empty(),
                        ..self
                    }
                } else {
                    self
                },
            }
        }
    }

    /// The outputs of a computation can be taken: one is under way, and if
    /// it is the run of a game, the game comes back with them.
    pub open spec fn can_complete(self, game_state: Option<GameStateEnc<W>>) -> bool {
        self.state == ServerState::RunningFhe && (self.flavor == Flavor::Game
            ==> game_state is Some)
    }

    /// The server after the outputs of a computation have been reported.
    pub open spec fn completed(
        self,
        game_state: Option<GameStateEnc<W>>,
        outputs: Vec<CircuitOutput<W>>,
    ) -> Self {
        if self.can_complete(game_state) {
            StorageModel {
                state: ServerState::CompletedFhe,
                game_state,
                circuit_output: Some(outputs),
                ..self
            }
        } else {
            self
        }
    }
}

fn take_key_material<K>(users: &mut Vec<UserRecord<K>>) -> (keys: Vec<K>)
    requires
        all_have_sks(old(users)@),
    ensures
        keys@ == key_material(old(users)@),
        final(users)@ == awaiting_shares(old(users)@, false),
{
    let count = users.len();
    let mut keys: Vec<K> = Vec::new();
    let mut i: usize = 0;
    while i < count
        invariant
            i <= count,
            count == old(users)@.len(),
            users@.len() == count,
            keys@.len() == i,
            all_have_sks(old(users)@),
            forall|j: int| 0 <= j < i ==> #[trigger] keys@[j] == old(users)@[j].storage->Sks_0,
            forall|j: int|
                0 <= j < i ==> #[trigger] users@[j] == awaiting_shares(old(users)@, false)[j],
            forall|j: int| i <= j < count ==> #[trigger] users@[j] == old(users)@[j],
        decreases count - i,
    {
        let mut slot = UserStorage::DecryptionShare(None);
        core::mem::swap(&mut users[i].storage, &mut slot);
        assert(old(users)@[i as int].storage is Sks);
        match slot {
            UserStorage::Sks(sks) => {
                keys.push(sks);
            },
            _ => {},
        }
        i += 1;
    }
    assert(keys@ =~= key_material(old(users)@));
    assert(users@ =~= awaiting_shares(old(users)@, false));
    keys
}

impl<K, W> ServerStorage<K, W> {
    /// Takes note that participant `user_id` is done with the outputs.
    /// Once every participant is done a new round begins: the outputs are
    /// dropped; a game waits for the next action, and a karma round for
    /// new key material.
    pub fn done(&mut self, user_id: UserId, action: UserAction<Vec<W>>) -> (r: Result<
        UserId,
        Error,
    >)
        ensures
            old(self)@.state != ServerState::CompletedFhe ==> r is Err && r->Err_0 == (
            Error::WrongState {
                expected: ServerState::CompletedFhe,
                actual: old(self)@.state,
            }) && *final(self) == *old(self),
            old(self)@.state == ServerState::CompletedFhe && user_id >= old(self)@.users.len()
                ==> r is Err && r->Err_0 == (Error::UnregisteredUser { user_id }) && *final(self)
                == *old(self),
            old(self)@.state == ServerState::CompletedFhe && user_id < old(self)@.users.len() && !(
            action is Done) ==> r is Err && r->Err_0 == (Error::WrongState {
                expected: ServerState::CompletedFhe,
                actual: ServerState::CompletedFhe,
            }) && *final(self) == *old(self),
            old(self)@.state == ServerState::CompletedFhe && user_id < old(self)@.users.len()
                && action is Done ==> {
                let marked = old(self)@.users.update(
                    user_id as int,
                    UserRecord { ready_for_new_round: true, ..old(self)@.users[user_id as int] },
                );
                &&& r == Ok::<UserId, Error>(user_id)
                &&& final(self)@ == (if all_ready(marked) {
                    StorageModel {
                        users: users_at_round_start(old(self)@.flavor, marked),
                        state: state_at_round_start(old(self)@.flavor),
                        circuit_output: None,
                        round: next_round(old(self)@.round),
                        ..old(self)@
                    }
                } else {
                    StorageModel { users: marked, ..old(self)@ }
                })
            },
            old(self)@.wf() ==> final(self)@.wf() && old(self)@.leads_to(final(self)@),
    {
        if let Err(e) = self.ensure(ServerState::CompletedFhe) {
            return Err(e);
        }
        if user_id >= self.users.len() {
            return Err(Error::UnregisteredUser { user_id });
        }
        match action {
            UserAction::Done => {},
            _ => {
                return Err(
                    Error::WrongState {
                        expected: ServerState::CompletedFhe,
                        actual: self.state,
                    },
                );
            },
        }
        self.users[user_id].ready_for_new_round = true;
        if self.check_ready_for_new_round() {
            match self.flavor {
                Flavor::Karma => {
                    self.transit(ServerState::ReadyForServerKeyShares);
                    empty_slots(&mut self.users);
                },
                Flavor::Game => {
                    self.transit(ServerState::ReadyForActions);
                    await_shares(&mut self.users, true);
                },
            }
            self.circuit_output = None;
            if self.round < usize::MAX {
                self.round = self.round + 1;
            }
        }
        Ok(user_id)
    }

    /// Whether every participant is done with the outputs of the round.
    pub fn check_ready_for_new_round(&self) -> (b: bool)
        ensures
            b == all_ready(self@.users),
    {
        let mut i: usize = 0;
        while i < self.users.len()
            invariant
                i <= self.users@.len(),
                forall|j: int| 0 <= j < i ==> (#[trigger] self.users@[j]).ready_for_new_round,
            decreases self.users@.len() - i,
        {
            if !self.users[i].ready_for_new_round {
                return false;
            }
            i += 1;
        }
        true
    }

    /// Asks for the computation to run.
    ///
    /// The first request that finds the server ready to run moves it to
    /// `RunningFhe` and hands out the inputs; the caller runs the
    /// computation and reports its outputs with `complete_run`. A request
    /// that finds the computation under way or over says so and changes
    /// nothing.
    ///
    /// A karma round whose key material is not complete cannot run: the
    /// server goes back to collecting key shares and names the first
    /// participant whose share is missing.
    pub fn run(&mut self, user_id: UserId) -> (r: Result<RunOutcome<K, W>, Error>)
        ensures
            final(self)@ == old(self)@.triggered(),
            old(self)@.can_start() ==> {
                &&& r matches Ok(RunOutcome::Started(inputs))
                &&& inputs.user_id == user_id
                &&& old(self)@.flavor == Flavor::Karma ==> inputs.key_material@ == key_material(
                    old(self)@.users,
                ) && inputs.game_state is None && inputs.actions@.len() == 0
                &&& old(self)@.flavor == Flavor::Game ==> inputs.key_material@.len() == 0
                    && inputs.game_state == old(self)@.game_state && inputs.actions@ == old(self)@.action_queue
            },
            old(self)@.state == ServerState::ReadyForRunning && !old(self)@.can_start() ==> r is Err
                && r->Err_0 == (match old(self)@.flavor {
                Flavor::Karma => Error::MissingSubmission {
                    user_id: first_without_sks(old(self)@.users) as usize,
                },
                Flavor::Game => Error::GameNotInitedYet,
            }),
            old(self)@.state == ServerState::RunningFhe ==> r is Ok && r->Ok_0 is AlreadyRunning
                && *final(self) == *old(self),
            old(self)@.state == ServerState::CompletedFhe ==> r is Ok && r->Ok_0 is AlreadyCompleted
                && *final(self) == *old(self),
            old(self)@.state != ServerState::ReadyForRunning && old(self)@.state
                != ServerState::RunningFhe && old(self)@.state != ServerState::CompletedFhe ==> r is Err
                && r->Err_0 == (Error::WrongState {
                expected: ServerState::ReadyForRunning,
                actual: old(self)@.state,
            }) && *final(self) == *old(self),
            old(self)@.flavor == Flavor::Game && old(self)@.game_state is None ==> *final(self)
                == *old(self),
            old(self)@.wf() ==> final(self)@.wf() && old(self)@.leads_to(final(self)@),
    {
        match self.state {
            ServerState::ReadyForRunning => {
                match self.flavor {
                    Flavor::Karma => {
                        if let Err(e) = self.get_sks() {
                            self.transit(ServerState::ReadyForServerKeyShares);
                            return Err(e);
                        }
                        let key_material = take_key_material(&mut self.users);
                        self.transit(ServerState::RunningFhe);
                        Ok(
                            RunOutcome::Started(
                                RunInputs {
                                    key_material,
                                    game_state: None,
                                    actions: Vec::new(),
                                    user_id,
                                },
                            ),
                        )
                    },
                    Flavor::Game => {
                        if self.game_state.is_none() {
                            return Err(Error::GameNotInitedYet);
                        }
                        let game_state = self.game_state.take();
                        let mut actions: Vec<QueuedAction<W>> = Vec::new();
                        core::mem::swap(&mut self.action_queue, &mut actions);
                        self.transit(ServerState::RunningFhe);
                        Ok(
                            RunOutcome::Started(
                                RunInputs { key_material: Vec::new(), game_state, actions, user_id },
                            ),
                        )
                    },
                }
            },
            ServerState::RunningFhe => Ok(RunOutcome::AlreadyRunning),
            ServerState::CompletedFhe => Ok(RunOutcome::AlreadyCompleted),
            _ => Err(
                Error::WrongState { expected: ServerState::ReadyForRunning, actual: self.state },
            ),
        }
    }

    /// Stores the outputs of the computation, together with the game as
    /// the computation left it, and makes them available. The run of a game
    /// has to give the game back.
    pub fn complete_run(
        &mut self,
        game_state: Option<GameStateEnc<W>>,
        outputs: Vec<CircuitOutput<W>>,
    ) -> (r: Result<(), Error>)
        ensures
            final(self)@ == old(self)@.completed(game_state, outputs),
            old(self)@.can_complete(game_state) ==> r is Ok,
            old(self)@.state != ServerState::RunningFhe ==> r is Err && r->Err_0 == (
            Error::WrongState {
                expected: ServerState::RunningFhe,
                actual: old(self)@.state,
            }) && *final(self) == *old(self),
            old(self)@.state == ServerState::RunningFhe && !old(self)@.can_complete(game_state)
                ==> r is Err && r->Err_0 == Error::GameNotInitedYet && *final(self) == *old(self),
            old(self)@.wf() ==> final(self)@.wf() && old(self)@.leads_to(final(self)@),
    {
        if let Err(e) = self.ensure(ServerState::RunningFhe) {
            return Err(e);
        }
        if self.flavor == Flavor::Game && game_state.is_none() {
            return Err(Error::GameNotInitedYet);
        }
        self.game_state = game_state;
        self.circuit_output = Some(outputs);
        self.transit(ServerState::CompletedFhe);
        Ok(())
    }

    /// The output words of the round.
    pub fn get_fhe_output(&self) -> (r: Result<&Vec<CircuitOutput<W>>, Error>)
        ensures
            self@.state == ServerState::CompletedFhe && self@.circuit_output is Some ==> r is Ok
                && *r->Ok_0 == self@.circuit_output->0,
            !(self@.state == ServerState::CompletedFhe && self@.circuit_output is Some) ==> r is Err
                && r->Err_0 == Error::OutputNotReady,
    {
        if self.state != ServerState::CompletedFhe {
            return Err(Error::OutputNotReady);
        }
        match &self.circuit_output {
            Some(outputs) => Ok(outputs),
            None => Err(Error::OutputNotReady),
        }
    }
}

/// Every participant has handed in a share for output `output_id`.
pub open spec fn all_have_share_for<K>(users: Seq<UserRecord<K>>, output_id: usize) -> bool {
    forall|i: int| 0 <= i < users.len() ==> (#[trigger] users[i]).storage.has_share_for(output_id)
}

/// The first participant without a share for output `output_id`, or the
/// number of participants if there is none.
pub open spec fn first_without_share<K>(users: Seq<UserRecord<K>>, output_id: usize) -> nat
    decreases users.len(),
{
    if users.len() == 0 {
        0
    } else if !users[0].storage.has_share_for(output_id) {
        0
    } else {
        1 + first_without_share(users.drop_first(), output_id)
    }
}

proof fn lemma_first_without_share<K>(users: Seq<UserRecord<K>>, output_id: usize, i: int)
    requires
        0 <= i <= users.len(),
        forall|j: int| 0 <= j < i ==> (#[trigger] users[j]).storage.has_share_for(output_id),
        i < users.len() ==> !users[i].storage.has_share_for(output_id),
    ensures
        first_without_share(users, output_id) == i,
        i == users.len() <==> all_have_share_for(users, output_id),
    decreases users.len(),
{
    if users.len() == 0 {
    } else if i == 0 {
    } else {
        let rest = users.drop_first();
        assert(users[0].storage.has_share_for(output_id));
        assert forall|j: int| 0 <= j < i - 1 implies (#[trigger] rest[j]).storage.has_share_for(
            output_id,
        ) by {
            assert(users[j + 1].storage.has_share_for(output_id));
        }
        lemma_first_without_share(rest, output_id, i - 1);
    }
}

/// The share table the slots of the participants add up to: the share of
/// participant `user_id` for output `output_id` stands under the pair of
/// the two numbers.
pub open spec fn shares_map<K>(users: Seq<UserRecord<K>>) -> Map<(usize, UserId), DecryptionShare> {
    Map::new(
        |key: (usize, UserId)| key.1 < users.len() && users[key.1 as int].storage.has_share_for(key.0),
        |key: (usize, UserId)| users[key.1 as int].storage.share_for(key.0),
    )
}

impl<K, W> ServerStorage<K, W> {
    /// Takes the decryption shares of participant `user_id`, one for each
    /// output word, in place of any it handed in before.
    pub fn submit_decryption_share(&mut self, user_id: UserId, shares: Vec<DecryptionShare>) -> (r:
        Result<UserId, Error>)
        ensures
            old(self)@.state != ServerState::CompletedFhe ==> r is Err && r->Err_0 == (
            Error::WrongState {
                expected: ServerState::CompletedFhe,
                actual: old(self)@.state,
            }) && *final(self) == *old(self),
            old(self)@.state == ServerState::CompletedFhe && user_id >= old(self)@.users.len()
                ==> r is Err && r->Err_0 == (Error::UnregisteredUser { user_id }) && *final(self)
                == *old(self),
            old(self)@.state == ServerState::CompletedFhe && user_id < old(self)@.users.len() && !(
            old(self)@.users[user_id as int].storage is DecryptionShare) ==> r is Err && r->Err_0
                == Error::OutputNotReady && *final(self) == *old(self),
            old(self)@.state == ServerState::CompletedFhe && user_id < old(self)@.users.len()
                && old(self)@.users[user_id as int].storage is DecryptionShare ==> r == Ok::<
                UserId,
                Error,
            >(user_id) && final(self)@ == (StorageModel {
                users: old(self)@.users.update(
                    user_id as int,
                    UserRecord {
                        storage: UserStorage::DecryptionShare(Some(shares)),
                        ..old(self)@.users[user_id as int]
                    },
                ),
                ..old(self)@
            }),
            old(self)@.wf() ==> final(self)@.wf() && old(self)@.leads_to(final(self)@),
    {
        if let Err(e) = self.ensure(ServerState::CompletedFhe) {
            return Err(e);
        }
        if user_id >= self.users.len() {
            return Err(Error::UnregisteredUser { user_id });
        }
        match self.users[user_id].storage {
            UserStorage::DecryptionShare(_) => {},
            _ => {
                return Err(Error::OutputNotReady);
            },
        }
        self.users[user_id].storage = UserStorage::DecryptionShare(Some(shares));
        Ok(user_id)
    }

    /// The decryption share of participant `user_id` for output word
    /// `output_id`, if it has been handed in.
    pub fn get_decryption_share(&self, output_id: usize, user_id: UserId) -> (r: Result<
        &DecryptionShare,
        Error,
    >)
        ensures
            shares_map(self@.users).contains_key((output_id, user_id)) ==> r is Ok && *r->Ok_0
                == shares_map(self@.users)[(output_id, user_id)],
            !shares_map(self@.users).contains_key((output_id, user_id)) ==> r is Err && r->Err_0
                == (Error::DecryptionShareNotFound { output_id, user_id }),
    {
        if user_id < self.users.len() {
            match &self.users[user_id].storage {
                UserStorage::DecryptionShare(Some(shares)) => {
                    if output_id < shares.len() {
                        return Ok(&shares[output_id]);
                    }
                },
                _ => {},
            }
        }
        Err(Error::DecryptionShareNotFound { output_id, user_id })
    }

    /// The decryption shares of all participants for output word
    /// `output_id`, in the order of their numbers. While a share is missing
    /// there is no answer but the first participant whose share it is.
    pub fn collect_decryption_shares(&self, output_id: usize) -> (r: Result<
        Vec<&DecryptionShare>,
        Error,
    >)
        ensures
            !all_have_share_for(self@.users, output_id) ==> r is Err && r->Err_0 == (
            Error::DecryptionShareNotFound {
                output_id,
                user_id: first_without_share(self@.users, output_id) as usize,
            }),
            all_have_share_for(self@.users, output_id) ==> (r matches Ok(shares) && shares@.len()
                == self@.users.len() && (forall|i: int|
                0 <= i < shares@.len() ==> *(#[trigger] shares@[i]) == shares_map(
                    self@.users,
                )[(output_id, i as usize)])),
    {
        let mut collected: Vec<&DecryptionShare> = Vec::new();
        let mut user_id: usize = 0;
        while user_id < self.users.len()
            invariant
                user_id <= self.users@.len(),
                collected@.len() == user_id,
                forall|j: int|
                    0 <= j < user_id ==> (#[trigger] self.users@[j]).storage.has_share_for(output_id),
                forall|j: int|
                    0 <= j < user_id ==> *(#[trigger] collected@[j])
                        == self.users@[j].storage.share_for(output_id),
            decreases self.users@.len() - user_id,
        {
            match self.get_decryption_share(output_id, user_id) {
                Ok(share) => {
                    collected.push(share);
                },
                Err(e) => {
                    proof {
                        lemma_first_without_share(self.users@, output_id, user_id as int);
                    }
                    return Err(e);
                },
            }
            user_id += 1;
        }
        proof {
            lemma_first_without_share(self.users@, output_id, user_id as int);
        }
        Ok(collected)
    }
}

/// A server that is ready to run has what the computation needs.
pub proof fn lemma_ready_can_start<K, W>(model: StorageModel<K, W>)
    requires
        model.wf(),
        model.state == ServerState::ReadyForRunning,
    ensures
        model.can_start(),
{
    if model.flavor == Flavor::Karma {
        assert forall|i: int| 0 <= i < model.users.len() implies (
        #[trigger] model.users[i]).storage is Sks by {
            assert(slot_fits(model.state, model.flavor, model.users[i].storage));
        }
    }
}

/// What may happen to a round once the server is ready to run.
pub enum RunEvent<W> {
    /// A participant asks for the computation to run.
    Trigger,
    /// The one who ran the computation reports its outputs.
    Complete { game_state: Option<GameStateEnc<W>>, outputs: Vec<CircuitOutput<W>> },
}

impl<K, W> StorageModel<K, W> {
    /// The server after an event.
    pub open spec fn after_event(self, event: RunEvent<W>) -> Self {
        match event {
            RunEvent::Trigger => self.triggered(),
            RunEvent::Complete { game_state, outputs } => self.completed(game_state, outputs),
        }
    }

    /// The event starts the computation.
    pub open spec fn started_by(self, event: RunEvent<W>) -> bool {
        event is Trigger && self.can_start()
    }

    /// The event takes the server to `CompletedFhe`.
    pub open spec fn completed_by(self, event: RunEvent<W>) -> bool {
        event matches RunEvent::Complete { game_state, .. } && self.can_complete(game_state)
    }

    /// The server after the first `count` of the events.
    pub open spec fn after_events(self, events: Seq<RunEvent<W>>, count: nat) -> Self
        decreases count,
    {
        if count == 0 {
            self
        } else {
            self.after_events(events, (count - 1) as nat).after_event(events[count - 1])
        }
    }

    /// How many of the first `count` events start the computation.
    pub open spec fn starts_in(self, events: Seq<RunEvent<W>>, count: nat) -> nat
        decreases count,
    {
        if count == 0 {
            0
        } else {
            let earlier = self.starts_in(events, (count - 1) as nat);
            if self.after_events(events, (count - 1) as nat).started_by(events[count - 1]) {
                earlier + 1
            } else {
                earlier
            }
        }
    }

    /// How many of the first `count` events take the server to
    /// `CompletedFhe`.
    pub open spec fn completions_in(self, events: Seq<RunEvent<W>>, count: nat) -> nat
        decreases count,
    {
        if count == 0 {
            0
        } else {
            let earlier = self.completions_in(events, (count - 1) as nat);
            if self.after_events(events, (count - 1) as nat).completed_by(events[count - 1]) {
                earlier + 1
            } else {
                earlier
            }
        }
    }
}

/// In whatever order requests to run and reports of outputs reach a server
/// that is ready to run, the computation is started at most once, and by
/// the first request; the server gets to `CompletedFhe` at most once, and
/// only after the start; and it is in `RunningFhe` between the two.
pub proof fn lemma_at_most_one_run<K, W>(
    model: StorageModel<K, W>,
    events: Seq<RunEvent<W>>,
    count: nat,
)
    requires
        model.wf(),
        model.state == ServerState::ReadyForRunning,
        count <= events.len(),
    ensures
        model.starts_in(events, count) <= 1,
        model.completions_in(events, count) <= model.starts_in(events, count),
        model.after_events(events, count).wf(),
        model.after_events(events, count).state == (if model.starts_in(events, count) == 0 {
            ServerState::ReadyForRunning
        } else if model.completions_in(events, count) == 0 {
            ServerState::RunningFhe
        } else {
            ServerState::CompletedFhe
        }),
        (exists|i: int| 0 <= i < count && events[i] is Trigger) ==> model.starts_in(events, count)
            == 1,
    decreases count,
{
    if count > 0 {
        let earlier = (count - 1) as nat;
        lemma_at_most_one_run(model, events, earlier);
        let before = model.after_events(events, earlier);
        let event = events[count - 1];
        if before.state == ServerState::ReadyForRunning {
            lemma_ready_can_start(before);
        }
        lemma_event_keeps_wf(before, event);
        if exists|i: int| 0 <= i < count && events[i] is Trigger {
            let i = choose|i: int| 0 <= i < count && events[i] is Trigger;
            if i < count - 1 {
                assert(0 <= i < earlier && events[i] is Trigger);
            }
        }
    }
}

/// An event leaves a server that is in order in order.
proof fn lemma_event_keeps_wf<K, W>(model: StorageModel<K, W>, event: RunEvent<W>)
    requires
        model.wf(),
    ensures
        model.after_event(event).wf(),
{
    let next = model.after_event(event);
    assert forall|i: int| 0 <= i < next.users.len() implies slot_fits(
        next.state,
        next.flavor,
        (#[trigger] next.users[i]).storage,
    ) by {
        assert(slot_fits(model.state, model.flavor, model.users[i].storage));
    }
    assert forall|i: int| 0 <= i < next.users.len() implies (#[trigger] next.users[i]).id == i by {
        assert(model.users[i].id == i);
    }
}

/// With the share of one participant missing, the shares for an output are
/// not handed out: the answer names a participant whose share is missing.
pub proof fn lemma_incomplete_shares_refused<K>(
    users: Seq<UserRecord<K>>,
    output_id: usize,
    missing: int,
)
    requires
        0 <= missing < users.len(),
        !users[missing].storage.has_share_for(output_id),
    ensures
        !all_have_share_for(users, output_id),
        first_without_share(users, output_id) <= missing,
        !users[first_without_share(users, output_id) as int].storage.has_share_for(output_id),
    decreases users.len(),
{
    if users[0].storage.has_share_for(output_id) {
        let rest = users.drop_first();
        assert(rest[missing - 1] == users[missing]);
        lemma_incomplete_shares_refused(rest, output_id, missing - 1);
        let found = first_without_share(rest, output_id) as int;
        assert(rest[found] == users[found + 1]);
    }
}

} // verus!
