//! Coordination of a multi-party computation over encrypted bits.
//!
//! Participants hand a server their key material and encrypted inputs; the
//! server evaluates a fixed boolean circuit gate by gate over wires it cannot
//! read, and the participants then pool decryption shares to open the result.
//!
//! * [`netlist`] holds the circuit data model and its well-formedness rules,
//!   [`validate`] decides them, and [`table`] reads circuits from tables of
//!   numbers; [`compiled`] holds the netlists of an adder and a subtractor,
//!   which [`schedule`] shows to be well formed and to add and subtract.
//! * [`backend`] is the capability through which gates are applied to wires;
//!   [`fhe`] holds ciphertext wires and makes decryption shares for them.
//! * [`engine`] evaluates a circuit level by level, and [`pruning`] shows
//!   that dropping dead temporaries never changes the outputs.
//! * [`storage`] is the state of the server and the operations of the
//!   protocol on it; [`state`] and [`users`] hold its phases, its errors
//!   and its records.
//! * [`game`] plays the board game on wires, [`karma`] says what a karma
//!   round computes.
//! * [`board`], [`actions`], [`shares`], [`dashboard`] and [`response`] hold
//!   the data that travels between the participants and the server;
//!   [`client_flow`] is the path of a participant through the protocol, and
//!   [`text`] writes numbers.

pub mod actions;
pub mod backend;
pub mod board;
pub mod client_flow;
pub mod compiled;
pub mod dashboard;
pub mod engine;
pub mod fhe;
pub mod game;
pub mod karma;
pub mod netlist;
pub mod pruning;
pub mod response;
pub mod schedule;
pub mod shares;
pub mod state;
pub mod storage;
pub mod table;
pub mod text;
pub mod users;
pub mod validate;

pub use actions::{GameStateEnc, UserAction};
pub use backend::{apply, GateBackend, PlainBackend};
pub use board::{
    coords_to_binary, u8_to_binary, Direction, GameStateLocalView, UserId, BOARD_DIM, BOARD_SIZE,
};
pub use dashboard::{Dashboard, RegisteredUser, UserStatus};
pub use compiled::karma_add::{karma_add_circuit, karma_add_netlist};
pub use compiled::karma_sub::{karma_sub_circuit, karma_sub_netlist};
pub use compiled::{karma_add, karma_sub};
pub use engine::{evaluate, evaluate_serial, try_evaluate};
pub use game::{apply_action, evaluate_circuit, get_user_cell, GameCircuits};
pub use fhe::{ClientSecret, FheWire};
pub use netlist::{CircuitDefinition, GateInput, GateOp, GateSpec};
pub use response::{RegistrationOut, ServerResponse, TOTAL_USERS};
pub use shares::{
    CipherSubmission, CircuitOutput, DecryptionShareSubmission, DecryptionSharesMap,
};
pub use state::{Error, ErrorResponse, ServerState};
pub use storage::{Flavor, RunInputs, RunOutcome, Seed, ServerStorage};
pub use users::{DecryptionShare, UserRecord, UserStorage};
