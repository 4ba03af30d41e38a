//! The phases of the protocol and the errors of the coordinator.

use vstd::prelude::*;
use vstd::string::*;
use crate::text::{decimal, decimal_string};

verus! {

/// The phase the server is in.
#[derive(Debug, Clone, Copy, PartialEq, Eq, Structural)]
pub enum ServerState {
    /// Users are allowed to join the computation.
    ReadyForJoining,
    /// Server key shares are accepted.
    ReadyForServerKeyShares,
    /// The eggs and the starting coordinates are accepted.
    ReadyForSetupGame,
    /// The next action of a player is accepted.
    ReadyForActions,
    /// Everything is in place for the computation.
    ReadyForRunning,
    /// The computation is under way.
    RunningFhe,
    /// The outputs of the computation can be fetched.
    CompletedFhe,
}

impl ServerState {
    /// The name of the phase.
    pub open spec fn name(self) -> Seq<char> {
        match self {
            ServerState::ReadyForJoining => "ReadyForJoining"@,
            ServerState::ReadyForServerKeyShares => "ReadyForServerKeyShares"@,
            ServerState::ReadyForSetupGame => "ReadyForSetupGame"@,
            ServerState::ReadyForActions => "ReadyForActions"@,
            ServerState::ReadyForRunning => "ReadyForRunning"@,
            ServerState::RunningFhe => "RunningFhe"@,
            ServerState::CompletedFhe => "CompletedFhe"@,
        }
    }

    /// The phase as it is shown to users: its name between double brackets.
    pub open spec fn label(self) -> Seq<char> {
        "[[ "@ + self.name() + " ]]"@
    }

    fn name_text(self) -> (s: &'static str)
        ensures
            s@ == self.name(),
    {
        match self {
            ServerState::ReadyForJoining => "ReadyForJoining",
            ServerState::ReadyForServerKeyShares => "ReadyForServerKeyShares",
            ServerState::ReadyForSetupGame => "ReadyForSetupGame",
            ServerState::ReadyForActions => "ReadyForActions",
            ServerState::ReadyForRunning => "ReadyForRunning",
            ServerState::RunningFhe => "RunningFhe",
            ServerState::CompletedFhe => "CompletedFhe",
        }
    }

    /// Writes the phase as it is shown to users.
    pub fn to_string(&self) -> (s: String)
        ensures
            s@ == self.label(),
    {
        String::from_str("[[ ").concat(self.name_text()).concat(" ]]")
    }

    /// Passes if the phase is `expect`, and says which phase was wanted and
    /// which was found if it is not.
    pub fn ensure(&self, expect: Self) -> (r: Result<&Self, Error>)
        ensures
            *self == expect ==> r == Ok::<&Self, Error>(self),
            *self != expect ==> r == Err::<&Self, Error>(
                Error::WrongState { expected: expect, actual: *self },
            ),
    {
        if *self == expect {
            Ok(self)
        } else {
            Err(Error::WrongState { expected: expect, actual: *self })
        }
    }

    /// Moves to the phase `next`.
    pub fn transit(&mut self, next: Self)
        ensures
            *final(self) == next,
    {
        *self = next;
    }
}

/// What can go wrong in an operation of the coordinator.
#[derive(Debug, Clone, Copy, PartialEq, Eq, Structural)]
pub enum Error {
    /// The operation belongs to another phase. The caller may try again
    /// later.
    WrongState { expected: ServerState, actual: ServerState },
    /// Nobody has registered under this number.
    UnregisteredUser { user_id: usize },
    /// The key material of this user is missing, so the round cannot run.
    MissingSubmission { user_id: usize },
    /// This user has not handed in a decryption share for this output.
    DecryptionShareNotFound { output_id: usize, user_id: usize },
    /// The outputs are not there yet. The caller may try again later.
    OutputNotReady,
    /// The game has not been set up.
    GameNotInitedYet,
    /// The circuit reads a wire that does not exist or fills an output
    /// slot twice.
    MalformedCircuit,
}

impl Error {
    /// The text of the error.
    pub open spec fn message(self) -> Seq<char> {
        match self {
            Error::WrongState { expected, actual } => "Wrong server state: expect "@
                + expected.label() + " but got "@ + actual.label(),
            Error::UnregisteredUser { user_id } => "User #"@ + decimal(user_id as nat)
                + " is unregistered"@,
            Error::MissingSubmission { user_id } => "The ciphertext from user #"@ + decimal(
                user_id as nat,
            ) + " not found"@,
            Error::DecryptionShareNotFound { output_id, user_id } => "Decryption share of "@
                + decimal(output_id as nat) + " from user "@ + decimal(user_id as nat)
                + " not found"@,
            Error::OutputNotReady => "Output not ready"@,
            Error::GameNotInitedYet => "Init action not performed yet"@,
            Error::MalformedCircuit => "Malformed circuit"@,
        }
    }

    /// Writes the text of the error.
    pub fn to_string(&self) -> (s: String)
        ensures
            s@ == self.message(),
    {
        match self {
            Error::WrongState { expected, actual } => {
                let wanted = expected.to_string();
                let found = actual.to_string();
                String::from_str("Wrong server state: expect ").concat(wanted.as_str()).concat(
                    " but got ",
                ).concat(found.as_str())
            },
            Error::UnregisteredUser { user_id } => {
                let id = decimal_string(*user_id);
                String::from_str("User #").concat(id.as_str()).concat(" is unregistered")
            },
            Error::MissingSubmission { user_id } => {
                let id = decimal_string(*user_id);
                String::from_str("The ciphertext from user #").concat(id.as_str()).concat(
                    " not found",
                )
            },
            Error::DecryptionShareNotFound { output_id, user_id } => {
                let output = decimal_string(*output_id);
                let user = decimal_string(*user_id);
                String::from_str("Decryption share of ").concat(output.as_str()).concat(
                    " from user ",
                ).concat(user.as_str()).concat(" not found")
            },
            Error::OutputNotReady => String::from_str("Output not ready"),
            Error::GameNotInitedYet => String::from_str("Init action not performed yet"),
            Error::MalformedCircuit => String::from_str("Malformed circuit"),
        }
    }

    /// Whether the error is reported as "not found" rather than as a failure
    /// of the server.
    pub open spec fn is_not_found(self) -> bool {
        self is DecryptionShareNotFound || self is UnregisteredUser || self is OutputNotReady
    }
}

/// An error as it goes back to a client: its text under one of two headings.
#[derive(Debug)]
pub enum ErrorResponse {
    /// Answered with status 500.
    ServerError(String),
    /// Answered with status 404.
    NotFoundError(String),
}

impl ErrorResponse {
    /// The response for `error`.
    pub fn from_error(error: Error) -> (r: Self)
        ensures
            error.is_not_found() ==> (r matches ErrorResponse::NotFoundError(text) && text@
                == error.message()),
            !error.is_not_found() ==> (r matches ErrorResponse::ServerError(text) && text@
                == error.message()),
    {
        let text = error.to_string();
        match error {
            Error::WrongState { .. }
            | Error::MissingSubmission { .. }
            | Error::GameNotInitedYet
            | Error::MalformedCircuit => ErrorResponse::ServerError(text),
            Error::DecryptionShareNotFound { .. }
            | Error::UnregisteredUser { .. }
            | Error::OutputNotReady => ErrorResponse::NotFoundError(text),
        }
    }

    /// The status code the response travels under.
    pub fn status(&self) -> (code: u16)
        ensures
            code == (if self is ServerError { 500u16 } else { 404u16 }),
    {
        match self {
            ErrorResponse::ServerError(_) => 500,
            ErrorResponse::NotFoundError(_) => 404,
        }
    }
}

} // verus!
