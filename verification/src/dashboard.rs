//! The public face of the server's state: the phase and how far each
//! participant has come.

use vstd::prelude::*;
use vstd::string::*;
use crate::board::UserId;
use crate::state::ServerState;
use crate::users::{UserRecord, UserStorage};

verus! {

/// How far a participant has come.
#[derive(Debug, Clone, Copy, PartialEq, Eq, Structural)]
pub enum UserStatus {
    IDAcquired,
    SksSubmitted,
    StartingCoordsSubmitted,
    DecryptionShareSubmitted,
}

impl UserStatus {
    /// The name of the status.
    pub open spec fn name(self) -> Seq<char> {
        match self {
            UserStatus::IDAcquired => "IDAcquired"@,
            UserStatus::SksSubmitted => "SksSubmitted"@,
            UserStatus::StartingCoordsSubmitted => "StartingCoordsSubmitted"@,
            UserStatus::DecryptionShareSubmitted => "DecryptionShareSubmitted"@,
        }
    }

    /// Writes the name of the status.
    pub fn to_string(&self) -> (s: String)
        ensures
            s@ == self.name(),
    {
        match self {
            UserStatus::IDAcquired => String::from_str("IDAcquired"),
            UserStatus::SksSubmitted => String::from_str("SksSubmitted"),
            UserStatus::StartingCoordsSubmitted => String::from_str("StartingCoordsSubmitted"),
            UserStatus::DecryptionShareSubmitted => String::from_str("DecryptionShareSubmitted"),
        }
    }

    /// The status that goes with what a participant has handed in. A
    /// participant whose key material has been used and who has no
    /// decryption share in yet shows as having set its coordinates.
    pub open spec fn of<K>(storage: &UserStorage<K>) -> UserStatus {
        match storage {
            UserStorage::Empty => UserStatus::IDAcquired,
            UserStorage::Sks(_) => UserStatus::SksSubmitted,
            UserStorage::StartingCoords => UserStatus::StartingCoordsSubmitted,
            UserStorage::DecryptionShare(Some(_)) => UserStatus::DecryptionShareSubmitted,
            UserStorage::DecryptionShare(None) => UserStatus::StartingCoordsSubmitted,
        }
    }
}

/// A participant as the dashboard shows it.
#[derive(Debug)]
pub struct RegisteredUser {
    pub id: UserId,
    pub name: String,
    pub status: UserStatus,
}

impl RegisteredUser {
    /// A participant who has just got its number.
    pub fn new(id: UserId, name: &str) -> (r: Self)
        ensures
            r.id == id,
            r.name@ == name@,
            r.status == UserStatus::IDAcquired,
    {
        Self { id, name: String::from_str(name), status: UserStatus::IDAcquired }
    }

    /// The dashboard entry of a record of the server.
    pub fn from_record<K>(user: &UserRecord<K>) -> (r: Self)
        ensures
            r.id == user.id,
            r.name@ == user.name@,
            r.status == UserStatus::of(&user.storage),
    {
        let status = match &user.storage {
            UserStorage::Empty => UserStatus::IDAcquired,
            UserStorage::Sks(_) => UserStatus::SksSubmitted,
            UserStorage::StartingCoords => UserStatus::StartingCoordsSubmitted,
            UserStorage::DecryptionShare(share) => {
                match share {
                    Some(_) => UserStatus::DecryptionShareSubmitted,
                    None => UserStatus::StartingCoordsSubmitted,
                }
            },
        };
        Self { id: user.id, name: user.name.clone(), status }
    }
}

/// The phase of the server, its participants and the number of the round.
#[derive(Debug)]
pub struct Dashboard {
    status: ServerState,
    users: Vec<RegisteredUser>,
    round: usize,
}

impl Dashboard {
    pub closed spec fn status(&self) -> ServerState {
        self.status
    }

    pub closed spec fn users(&self) -> Seq<RegisteredUser> {
        self.users@
    }

    pub closed spec fn round(&self) -> usize {
        self.round
    }

    pub fn new(status: &ServerState, users: Vec<RegisteredUser>, round: usize) -> (r: Self)
        ensures
            r.status() == *status,
            r.users() == users@,
            r.round() == round,
    {
        Self { status: *status, users, round }
    }

    /// The names of the participants in the order of their numbers.
    pub fn get_names(&self) -> (names: Vec<String>)
        ensures
            names@.len() == self.users().len(),
            forall|i: int|
                0 <= i < names@.len() ==> (#[trigger] names@[i])@ == self.users()[i].name@,
    {
        let mut names: Vec<String> = Vec::new();
        let mut i: usize = 0;
        while i < self.users.len()
            invariant
                i <= self.users@.len(),
                names@.len() == i,
                forall|j: int| 0 <= j < i ==> (#[trigger] names@[j])@ == self.users@[j].name@,
            decreases self.users@.len() - i,
        {
            names.push(self.users[i].name.clone());
            i += 1;
        }
        names
    }

    /// The phase of the server.
    pub fn get_status(&self) -> (status: ServerState)
        ensures
            status == self.status(),
    {
        self.status
    }

    /// The participants in the order of their numbers.
    pub fn get_users(&self) -> (users: &Vec<RegisteredUser>)
        ensures
            users@ == self.users(),
    {
        &self.users
    }

    pub fn get_round(&self) -> (r: usize)
        ensures
            r == self.round(),
    {
        self.round
    }

    /// Registration is closed.
    pub fn is_concluded(&self) -> (b: bool)
        ensures
            b == (self.status() == ServerState::ReadyForServerKeyShares),
    {
        self.status == ServerState::ReadyForServerKeyShares
    }

    pub fn is_submit_sks_complete(&self) -> (b: bool)
        ensures
            b == (self.status() == ServerState::ReadyForSetupGame),
    {
        self.status == ServerState::ReadyForSetupGame
    }

    pub fn is_setup_game_complete(&self) -> (b: bool)
        ensures
            b == (self.status() != ServerState::ReadyForSetupGame),
    {
        self.status != ServerState::ReadyForSetupGame
    }

    pub fn is_fhe_ongoing(&self) -> (b: bool)
        ensures
            b == (self.status() == ServerState::ReadyForRunning || self.status()
                == ServerState::RunningFhe || self.status() == ServerState::CompletedFhe),
    {
        self.status == ServerState::ReadyForRunning || self.status == ServerState::RunningFhe
            || self.status == ServerState::CompletedFhe
    }

    pub fn is_fhe_complete(&self) -> (b: bool)
        ensures
            b == (self.status() == ServerState::CompletedFhe),
    {
        self.status == ServerState::CompletedFhe
    }

    /// Every participant but `user_id` has handed in its decryption share.
    pub fn is_decryption_shares_submission_complete(&self, user_id: UserId) -> (b: bool)
        ensures
            b == (forall|i: int|
                0 <= i < self.users().len() && (#[trigger] self.users()[i]).id != user_id
                    ==> self.users()[i].status == UserStatus::DecryptionShareSubmitted),
    {
        let mut i: usize = 0;
        while i < self.users.len()
            invariant
                i <= self.users@.len(),
                forall|j: int|
                    0 <= j < i && (#[trigger] self.users@[j]).id != user_id ==> self.users@[j].status
                        == UserStatus::DecryptionShareSubmitted,
            decreases self.users@.len() - i,
        {
            let user = &self.users[i];
            if user.id != user_id && user.status != UserStatus::DecryptionShareSubmitted {
                return false;
            }
            i += 1;
        }
        true
    }

    /// The next action can be handed in: the server waits for one, or a
    /// round later than `round` has begun.
    pub fn is_ready_for_actions(&self, round: usize) -> (b: bool)
        ensures
            b == (self.status() == ServerState::ReadyForActions || self.round() > round),
    {
        self.status == ServerState::ReadyForActions || self.round > round
    }
}

} // verus!
