//! Ciphertexts of the `phantom_zone` crate as the library holds them.
//!
//! A wire is an encrypted bit, opaque to the verifier. The library carries
//! wires through the engine and the coordinator and makes the decryption
//! share of a participant for a word of them.
//!
//! `phantom_zone` keeps its parameters per thread and its server key per
//! process. A decryption share needs the parameters on the calling thread
//! and no key: [`CircuitOutput::gen_decryption_share`] activates them before
//! it makes a share. The gates on two ciphertexts also need the server key,
//! and one that was made for the very parameter set that is active; no
//! value that this library could hold shows that. The gates therefore are
//! not applied here: whoever installs the key provides them as a
//! [`GateBackend`](crate::backend::GateBackend).

use vstd::prelude::*;
use std::rc::Rc;
use phantom_zone::MultiPartyDecryptor;
use crate::shares::CircuitOutput;
use crate::users::DecryptionShare;

verus! {

/// One encrypted bit: an `FheBool` of `phantom_zone`, opaque to the
/// verifier.
#[verifier::external_body]
pub struct FheWire {
    pub inner: phantom_zone::FheBool,
}

/// The secret of a participant: a `ClientKey` of `phantom_zone`, opaque to
/// the verifier.
#[verifier::external_body]
pub struct ClientSecret {
    pub inner: phantom_zone::ClientKey,
}

/// Evidence that a parameter set of `phantom_zone` is active on the thread
/// that holds the value. It is made by `bind_thread` alone and is neither
/// `Send` nor `Sync`, so it is only ever seen on the thread that was bound.
struct BoundThread {
    here: Rc<()>,
}

/// `phantom_zone::set_parameter_set` with the parameters for up to four
/// parties. It sets up the evaluator of the calling thread, whatever was
/// there before, and returns nothing.
#[verifier::external_body]
fn activate_parameters() {
    phantom_zone::set_parameter_set(phantom_zone::ParameterSelector::NonInteractiveLTE4Party);
}

/// Activates the parameter set on the calling thread and hands out the
/// evidence of it.
fn bind_thread() -> (thread: BoundThread) {
    activate_parameters();
    BoundThread { here: Rc::new(()) }
}

/// `MultiPartyDecryptor::gen_decryption_share` of `phantom_zone` for one
/// `FheBool`. It reads the evaluator of the thread, which `thread` shows to
/// be there, and no key. The share holds fresh noise, so nothing is claimed
/// of it.
#[verifier::external_body]
fn share_of_bit(thread: &BoundThread, ck: &ClientSecret, wire: &FheWire) -> (share: u64) {
    ck.inner.gen_decryption_share(&wire.inner)
}

impl CircuitOutput<FheWire> {
    /// The participant's decryption share for the word: one number for
    /// each bit, in the order of the bits. The calling thread is bound
    /// before the first share is made.
    pub fn gen_decryption_share(&self, ck: &ClientSecret) -> (share: DecryptionShare)
        ensures
            share@.len() == self.wires().len(),
    {
        let thread = bind_thread();
        let cell = self.cell();
        let mut dec_share: Vec<u64> = Vec::new();
        let mut k: usize = 0;
        while k < cell.len()
            invariant
                k <= cell@.len(),
                cell@ == self.wires(),
                dec_share@.len() == k,
            decreases cell@.len() - k,
        {
            dec_share.push(share_of_bit(&thread, ck, &cell[k]));
            k += 1;
        }
        dec_share
    }
}

} // verus!
