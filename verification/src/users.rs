//! What the server keeps about each participant.

use vstd::prelude::*;
use crate::board::UserId;

verus! {

/// A participant's part of what is needed to open one output word: one
/// number for each bit of the word.
pub type DecryptionShare = Vec<u64>;

/// What a participant has handed in so far. `K` is the key material of the
/// encryption scheme in use.
///
/// Within a round the slot only moves forward: from `Empty` over `Sks` and,
/// in a game, `StartingCoords` to `DecryptionShare`.
#[derive(Debug)]
pub enum UserStorage<K> {
    /// Nothing yet.
    Empty,
    /// The server key share.
    Sks(K),
    /// The starting coordinates; they are held in the game state.
    StartingCoords,
    /// The key material has been used. The participant may hand in one
    /// decryption share for each output word.
    DecryptionShare(Option<Vec<DecryptionShare>>),
}

impl<K> UserStorage<K> {
    /// The key share, while it is there.
    pub fn get_cipher_sks(&self) -> (r: Option<&K>)
        ensures
            self matches UserStorage::Sks(sks) ==> r == Some(sks),
            !(self is Sks) ==> r is None,
    {
        match self {
            UserStorage::Sks(sks) => Some(sks),
            _ => None,
        }
    }

    /// The place of the decryption shares, once the slot has come that far.
    pub fn get_mut_decryption_shares(&mut self) -> (r: Option<&mut Option<Vec<DecryptionShare>>>)
        ensures
            (*old(self)) is DecryptionShare ==> (r matches Some(place) && *place == (*old(self))->DecryptionShare_0 && *final(self) == UserStorage::<K>::DecryptionShare(
                *final(place),
            )),
            !((*old(self)) is DecryptionShare) ==> r is None && *final(self) == *old(self),
    {
        match self {
            UserStorage::DecryptionShare(shares) => Some(shares),
            _ => None,
        }
    }

    /// Whether the participant has handed in a share for output `output_id`.
    pub open spec fn has_share_for(&self, output_id: usize) -> bool {
        self matches UserStorage::DecryptionShare(Some(shares)) && output_id < shares@.len()
    }

    /// The share for output `output_id`.
    pub open spec fn share_for(&self, output_id: usize) -> DecryptionShare
        recommends
            self.has_share_for(output_id),
    {
        self->DecryptionShare_0->0@[output_id as int]
    }
}

/// One registered participant.
#[derive(Debug)]
pub struct UserRecord<K> {
    pub id: UserId,
    pub name: String,
    pub storage: UserStorage<K>,
    /// Set once the participant is done with the outputs of the round.
    pub ready_for_new_round: bool,
}

} // verus!
