//! Plain answers of the server: a flag and a line of text.

use vstd::prelude::*;
use vstd::string::*;
use crate::board::UserId;
use crate::text::{decimal, decimal_string};

verus! {

/// Number of participants a karma round waits for.
pub const TOTAL_USERS: usize = 3;

/// An answer of the server.
#[derive(Debug)]
pub struct ServerResponse {
    pub ok: bool,
    pub msg: String,
}

impl ServerResponse {
    /// A success with the text `msg`.
    pub fn ok(msg: &str) -> (r: Self)
        ensures
            r.ok,
            r.msg@ == msg@,
    {
        Self { ok: true, msg: String::from_str(msg) }
    }

    /// A failure with the text `msg`.
    pub fn err(msg: &str) -> (r: Self)
        ensures
            !r.ok,
            r.msg@ == msg@,
    {
        Self { ok: false, msg: String::from_str(msg) }
    }

    /// A success that names the user it is about.
    pub fn ok_user(user_id: UserId) -> (r: Self)
        ensures
            r.ok,
            r.msg@ == decimal(user_id as nat),
    {
        let id = decimal_string(user_id);
        Self::ok(id.as_str())
    }

    pub fn err_unregistered_user(user_id: UserId) -> (r: Self)
        ensures
            !r.ok,
            r.msg@ == "User "@ + decimal(user_id as nat) + " hasn't registered yet"@,
    {
        let id = decimal_string(user_id);
        let msg = String::from_str("User ").concat(id.as_str()).concat(" hasn't registered yet");
        Self::err(msg.as_str())
    }

    pub fn err_unregistered_users(user_len: usize) -> (r: Self)
        ensures
            !r.ok,
            r.msg@ == "Some users haven't registered yet. Want "@ + decimal(TOTAL_USERS as nat)
                + "  Got "@ + decimal(user_len as nat),
    {
        let want = decimal_string(TOTAL_USERS);
        let got = decimal_string(user_len);
        let msg = String::from_str("Some users haven't registered yet. Want ").concat(
            want.as_str(),
        ).concat("  Got ").concat(got.as_str());
        Self::err(msg.as_str())
    }

    pub fn err_run_in_progress() -> (r: Self)
        ensures
            !r.ok,
            r.msg@ == "Fhe computation already running"@,
    {
        Self::err("Fhe computation already running")
    }

    pub fn ok_run_already_end() -> (r: Self)
        ensures
            r.ok,
            r.msg@ == "Fhe computation completed"@,
    {
        Self::ok("Fhe computation completed")
    }

    pub fn err_missing_submission(user_id: UserId) -> (r: Self)
        ensures
            !r.ok,
            r.msg@ == "can't find cipher submission from user "@ + decimal(user_id as nat),
    {
        let id = decimal_string(user_id);
        let msg = String::from_str("can't find cipher submission from user ").concat(id.as_str());
        Self::err(msg.as_str())
    }

    pub fn err_output_not_ready() -> (r: Self)
        ensures
            !r.ok,
            r.msg@ == "FHE output not ready yet"@,
    {
        Self::err("FHE output not ready yet")
    }

    pub fn err_decryption_share_not_found(output_id: usize, user_id: UserId) -> (r: Self)
        ensures
            !r.ok,
            r.msg@ == "Decryption share of "@ + decimal(output_id as nat) + " from user "@
                + decimal(user_id as nat) + " not found"@,
    {
        let output = decimal_string(output_id);
        let user = decimal_string(user_id);
        let msg = String::from_str("Decryption share of ").concat(output.as_str()).concat(
            " from user ",
        ).concat(user.as_str()).concat(" not found");
        Self::err(msg.as_str())
    }
}

/// What a user learns on registering.
#[derive(Debug)]
pub struct RegistrationOut {
    pub name: String,
    pub user_id: usize,
}

} // verus!
