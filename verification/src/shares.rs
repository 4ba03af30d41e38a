//! Output words and the decryption shares that open them.

use vstd::prelude::*;
use std::collections::HashMap;
use crate::board::UserId;
use crate::users::DecryptionShare;

verus! {

/// What a participant sends when it hands in its decryption shares: its
/// number and one share for each output word.
#[derive(Debug)]
pub struct DecryptionShareSubmission<'r> {
    user_id: UserId,
    decryption_shares: &'r Vec<DecryptionShare>,
}

impl<'r> DecryptionShareSubmission<'r> {
    pub closed spec fn spec_user_id(&self) -> UserId {
        self.user_id
    }

    pub closed spec fn spec_decryption_shares(&self) -> &'r Vec<DecryptionShare> {
        self.decryption_shares
    }

    pub fn new(user_id: usize, decryption_shares: &'r Vec<DecryptionShare>) -> (r: Self)
        ensures
            r.spec_user_id() == user_id,
            r.spec_decryption_shares() == decryption_shares,
    {
        Self { user_id, decryption_shares }
    }

    #[verifier::when_used_as_spec(spec_user_id)]
    pub fn user_id(&self) -> (id: UserId)
        ensures
            id == self.spec_user_id(),
    {
        self.user_id
    }

    #[verifier::when_used_as_spec(spec_decryption_shares)]
    pub fn decryption_shares(&self) -> (shares: &'r Vec<DecryptionShare>)
        ensures
            shares == self.spec_decryption_shares(),
    {
        self.decryption_shares
    }
}

/// What a participant of a karma round sends: its number, its encrypted
/// scores and its server key share.
#[derive(Debug)]
pub struct CipherSubmission<C, K> {
    user_id: UserId,
    cipher_text: C,
    sks: K,
}

impl<C, K> CipherSubmission<C, K> {
    pub closed spec fn parts(self) -> (UserId, C, K) {
        (self.user_id, self.cipher_text, self.sks)
    }

    pub fn new(user_id: usize, cipher_text: C, sks: K) -> (r: Self)
        ensures
            r.parts() == (user_id, cipher_text, sks),
    {
        Self { user_id, cipher_text, sks }
    }

    /// Takes the submission apart: the number of the participant, and its
    /// key material as the server stores it.
    pub fn into_parts(self) -> (r: (UserId, (C, K)))
        ensures
            r == (self.parts().0, (self.parts().1, self.parts().2)),
    {
        (self.user_id, (self.cipher_text, self.sks))
    }
}

/// One output word of a computation, a wire for each bit.
#[derive(Debug)]
pub struct CircuitOutput<W> {
    cell: Vec<W>,
}

/// The shares of all participants for bit `bit`: entry `u` is element `bit`
/// of the share vector of participant `u`.
pub open spec fn column(dss: Seq<&DecryptionShare>, bit: int) -> Seq<u64> {
    Seq::new(dss.len(), |u: int| dss[u]@[bit])
}

impl<W> CircuitOutput<W> {
    /// The wires of the word, least significant bit first.
    pub closed spec fn wires(&self) -> Seq<W> {
        self.cell@
    }

    pub fn new(cell: Vec<W>) -> (r: Self)
        ensures
            r.wires() == cell@,
    {
        Self { cell }
    }

    /// The number of bits of the word.
    pub fn n(&self) -> (n: usize)
        ensures
            n == self.wires().len(),
    {
        self.cell.len()
    }

    /// The wires of the word.
    pub fn cell(&self) -> (cell: &Vec<W>)
        ensures
            cell@ == self.wires(),
    {
        &self.cell
    }

    /// Gives the wires of the word back.
    pub fn into_cell(self) -> (cell: Vec<W>)
        ensures
            cell@ == self.wires(),
    {
        self.cell
    }

    /// Every share vector has an element for each bit of the word.
    pub open spec fn shares_fit(&self, dss: Seq<&DecryptionShare>) -> bool {
        forall|u: int| 0 <= u < dss.len() ==> (#[trigger] dss[u])@.len() >= self.wires().len()
    }

    /// Sorts the shares by bit: bit `k` of the word is opened with element
    /// `k` of the share vector of every participant, in the order of the
    /// participants. There is no answer if a share vector is shorter than
    /// the word.
    pub fn shares_by_bit(&self, dss: &Vec<&DecryptionShare>) -> (r: Option<Vec<Vec<u64>>>)
        ensures
            r is Some <==> self.shares_fit(dss@),
            r matches Some(by_bit) ==> by_bit@.len() == self.wires().len() && (forall|k: int|
                0 <= k < by_bit@.len() ==> (#[trigger] by_bit@[k])@ == column(dss@, k)),
    {
        let bits = self.cell.len();
        let mut u: usize = 0;
        while u < dss.len()
            invariant
                u <= dss@.len(),
                bits == self.wires().len(),
                forall|v: int| 0 <= v < u ==> (#[trigger] dss@[v])@.len() >= bits,
            decreases dss@.len() - u,
        {
            if dss[u].len() < bits {
                return None;
            }
            u += 1;
        }
        let mut by_bit: Vec<Vec<u64>> = Vec::new();
        let mut k: usize = 0;
        while k < bits
            invariant
                k <= bits,
                bits == self.wires().len(),
                self.shares_fit(dss@),
                by_bit@.len() == k,
                forall|j: int| 0 <= j < k ==> (#[trigger] by_bit@[j])@ == column(dss@, j),
            decreases bits - k,
        {
            let mut shares_for_bit_k: Vec<u64> = Vec::new();
            let mut u: usize = 0;
            while u < dss.len()
                invariant
                    u <= dss@.len(),
                    k < bits,
                    bits == self.wires().len(),
                    self.shares_fit(dss@),
                    shares_for_bit_k@.len() == u,
                    forall|v: int|
                        0 <= v < u ==> #[trigger] shares_for_bit_k@[v] == dss@[v]@[k as int],
                decreases dss@.len() - u,
            {
                let user_share: &DecryptionShare = dss[u];
                assert(dss@[u as int]@.len() >= bits);
                shares_for_bit_k.push(user_share[k]);
                u += 1;
            }
            assert(shares_for_bit_k@ =~= column(dss@, k as int));
            by_bit.push(shares_for_bit_k);
            k += 1;
        }
        Some(by_bit)
    }
}

/// The decryption shares a participant has gathered: the share of
/// participant `user_id` for output word `output_id` stands under the pair
/// of the two numbers.
#[derive(Debug)]
pub struct DecryptionSharesMap {
    /// For each output word, the shares by participant.
    by_output: Vec<HashMap<UserId, DecryptionShare>>,
}

impl View for DecryptionSharesMap {
    type V = Map<(usize, UserId), DecryptionShare>;

    closed spec fn view(&self) -> Map<(usize, UserId), DecryptionShare> {
        Map::new(
            |key: (usize, UserId)|
                key.0 < self.by_output@.len() && self.by_output@[key.0 as int]@.contains_key(key.1),
            |key: (usize, UserId)| self.by_output@[key.0 as int]@[key.1],
        )
    }
}

/// The participants among the first `count` whose share for output
/// `output_id` is not in `shares`, in the order of their numbers.
pub open spec fn missing_among(
    shares: Map<(usize, UserId), DecryptionShare>,
    output_id: usize,
    count: nat,
) -> Seq<UserId>
    decreases count,
{
    if count == 0 {
        Seq::empty()
    } else {
        let earlier = missing_among(shares, output_id, (count - 1) as nat);
        if shares.contains_key((output_id, (count - 1) as usize)) {
            earlier
        } else {
            earlier.push((count - 1) as usize)
        }
    }
}

/// The shares of the first `count` participants for output `output_id` are
/// all in `shares`.
pub open spec fn complete_for(
    shares: Map<(usize, UserId), DecryptionShare>,
    output_id: usize,
    count: nat,
) -> bool {
    forall|u: usize| u < count ==> #[trigger] shares.contains_key((output_id, u))
}

impl DecryptionSharesMap {
    /// A table without shares.
    pub fn new() -> (r: Self)
        ensures
            r@ == Map::<(usize, UserId), DecryptionShare>::empty(),
    {
        let r = Self { by_output: Vec::new() };
        assert(r@ =~= Map::<(usize, UserId), DecryptionShare>::empty());
        r
    }

    /// Puts a share in the table, in place of the one that may stand under
    /// the same pair.
    pub fn insert(&mut self, output_id: usize, user_id: UserId, share: DecryptionShare)
        ensures
            final(self)@ == old(self)@.insert((output_id, user_id), share),
    {
        while self.by_output.len() <= output_id
            invariant
                self.by_output@.len() >= old(self).by_output@.len(),
                forall|o: int|
                    0 <= o < old(self).by_output@.len() ==> #[trigger] self.by_output@[o] == old(self).by_output@[o],
                forall|o: int|
                    old(self).by_output@.len() <= o < self.by_output@.len() ==> (
                    #[trigger] self.by_output@[o])@ == Map::<UserId, DecryptionShare>::empty(),
            decreases output_id + 1 - self.by_output@.len(),
        {
            self.by_output.push(HashMap::new());
        }
        assert(self@ =~= old(self)@);
        let ghost padded = self.by_output@;
        self.by_output[output_id].insert(user_id, share);
        assert(self.by_output@[output_id as int]@ == padded[output_id as int]@.insert(
            user_id,
            share,
        ));
        assert(self@ =~= old(self)@.insert((output_id, user_id), share));
    }

    /// The share of participant `user_id` for output word `output_id`.
    pub fn get(&self, output_id: usize, user_id: UserId) -> (r: Option<&DecryptionShare>)
        ensures
            self@.contains_key((output_id, user_id)) ==> r == Some(&self@[(output_id, user_id)]),
            !self@.contains_key((output_id, user_id)) ==> r is None,
    {
        if output_id < self.by_output.len() {
            self.by_output[output_id].get(&user_id)
        } else {
            None
        }
    }

    /// The participants among the first `total_users` whose share for
    /// output word `output_id` has yet to be fetched.
    pub fn missing(&self, output_id: usize, total_users: usize) -> (r: Vec<UserId>)
        ensures
            r@ == missing_among(self@, output_id, total_users as nat),
    {
        let mut wanted: Vec<UserId> = Vec::new();
        let mut user_id: usize = 0;
        while user_id < total_users
            invariant
                user_id <= total_users,
                wanted@ == missing_among(self@, output_id, user_id as nat),
            decreases total_users - user_id,
        {
            if self.get(output_id, user_id).is_none() {
                wanted.push(user_id);
            }
            user_id += 1;
        }
        wanted
    }

    /// The shares of the first `total_users` participants for output word
    /// `output_id`, in the order of their numbers, once none is missing.
    pub fn shares_for(&self, output_id: usize, total_users: usize) -> (r: Option<
        Vec<&DecryptionShare>,
    >)
        ensures
            r is Some <==> complete_for(self@, output_id, total_users as nat),
            r matches Some(dss) ==> dss@.len() == total_users && (forall|u: int|
                0 <= u < total_users ==> *(#[trigger] dss@[u]) == self@[(output_id, u as usize)]),
    {
        let mut dss: Vec<&DecryptionShare> = Vec::new();
        let mut user_id: usize = 0;
        while user_id < total_users
            invariant
                user_id <= total_users,
                dss@.len() == user_id,
                forall|u: usize| u < user_id ==> #[trigger] self@.contains_key((output_id, u)),
                forall|u: int|
                    0 <= u < user_id ==> *(#[trigger] dss@[u]) == self@[(output_id, u as usize)],
            decreases total_users - user_id,
        {
            match self.get(output_id, user_id) {
                Some(share) => {
                    dss.push(share);
                },
                None => {
                    return None;
                },
            }
            user_id += 1;
        }
        Some(dss)
    }
}

} // verus!
