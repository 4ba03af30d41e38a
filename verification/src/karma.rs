//! The karma round: every participant gives karma to the others, and its
//! balance is what it received less what it gave.
//!
//! Participant `u` hands in a vector of numbers: entry `v` is the karma it
//! gives to participant `v`, and the entry after the last participant is the
//! total of what it gives.

use vstd::prelude::*;
use crate::board::UserId;

verus! {

/// Where the karma that participant `me` received stands: entry `me` of the
/// vector of every participant, in the order of their numbers.
pub open spec fn received_at(me: UserId, total_users: nat) -> Seq<(UserId, usize)> {
    Seq::new(total_users, |u: int| (u as usize, me))
}

/// Where the total that participant `me` gave stands: behind the last
/// participant in its own vector.
pub open spec fn given_at(me: UserId, total_users: usize) -> (UserId, usize) {
    (me, total_users)
}

/// The balance of a participant in numbers of eight bits: the sum of
/// `received` less `given`, wrapping around.
pub open spec fn balance_of(received: Seq<u8>, given: u8) -> u8
    decreases received.len(),
{
    if received.len() == 0 {
        ((256 - given) % 256) as u8
    } else {
        ((balance_of(received.drop_last(), given) + received.last()) % 256) as u8
    }
}

/// Lists where the karma that participant `me` received stands.
pub fn received_from(me: UserId, total_users: usize) -> (places: Vec<(UserId, usize)>)
    ensures
        places@ == received_at(me, total_users as nat),
{
    let mut places: Vec<(UserId, usize)> = Vec::new();
    let mut other: usize = 0;
    while other < total_users
        invariant
            other <= total_users,
            places@.len() == other,
            forall|u: int| 0 <= u < other ==> #[trigger] places@[u] == (u as usize, me),
        decreases total_users - other,
    {
        places.push((other, me));
        other += 1;
    }
    assert(places@ =~= received_at(me, total_users as nat));
    places
}

/// Says where the total that participant `me` gave stands.
pub fn total_given(me: UserId, total_users: usize) -> (place: (UserId, usize))
    ensures
        place == given_at(me, total_users),
{
    (me, total_users)
}

/// Computes the balance of a participant in the clear.
pub fn balance(received: &Vec<u8>, given: u8) -> (b: u8)
    ensures
        b == balance_of(received@, given),
{
    let mut b: u8 = 0u8.wrapping_sub(given);
    let mut i: usize = 0;
    assert(received@.take(0) =~= Seq::<u8>::empty());
    while i < received.len()
        invariant
            i <= received@.len(),
            b == balance_of(received@.take(i as int), given),
        decreases received@.len() - i,
    {
        assert(received@.take(i + 1).drop_last() =~= received@.take(i as int));
        b = b.wrapping_add(received[i]);
        i += 1;
    }
    assert(received@.take(received@.len() as int) =~= received@);
    b
}

} // verus!
