//! The steps of a participant through the protocol, as a table: which
//! request a command leads to in each phase, and where the answer to the
//! request takes the participant.
//!
//! The caller keeps the data of the session and talks to the server; the
//! functions here decide what is to be done next.

use vstd::prelude::*;
use vstd::string::*;

verus! {

/// Where a participant stands.
#[derive(Debug, Clone, Copy, PartialEq, Eq, Structural)]
pub enum Phase {
    Init,
    Setup,
    ConcludedRegistration,
    SubmittedSks,
    ConcludedSubmitSks,
    InitGame,
    SetupGame,
    ConcludedSetupGame,
    GameAction,
    CompletedFhe,
    DownloadedOutput,
    ConcludedDecryptionSubmission,
    Decrypted,
}

/// What the participant typed.
#[derive(Debug, Clone, Copy, PartialEq, Eq, Structural)]
pub enum Command {
    /// An empty line.
    Empty,
    /// A line that begins with `#`.
    Comment,
    Next,
    Move,
    Lay,
    Pickup,
    Status,
    /// Anything else.
    Unknown,
}

/// A request to the server, or work on what it sent.
#[derive(Debug, Clone, Copy, PartialEq, Eq, Structural)]
pub enum Task {
    /// Fetch the seed, make a client key and register.
    Register,
    /// Ask whether registration is closed and who has joined.
    FetchNames,
    /// Make the server key share and hand it in.
    SubmitSks,
    /// Ask whether every key share is in.
    CheckSksComplete,
    /// Start the game with an empty board.
    InitGame,
    /// Hand in the starting coordinates.
    SetStartingCoords,
    /// Ask whether every participant has set its coordinates.
    CheckSetupComplete,
    /// Hand in a move and ask for the computation to run.
    Move,
    /// Lay an egg and ask for the computation to run.
    Lay,
    /// Pick up an egg and ask for the computation to run.
    Pickup,
    /// Ask whether the computation is past its start.
    CheckFheOngoing,
    /// Ask whether the computation is over.
    CheckFheComplete,
    /// Fetch the output and make the decryption shares for it. With
    /// `submit_shares` the shares are handed in as well.
    DownloadOutput { submit_shares: bool },
    /// Ask whether the other participants have handed in their shares.
    CheckSharesComplete,
    /// Fetch the shares of the others and open the output.
    DownloadShares,
    /// Fetch and show the dashboard.
    ShowDashboard,
}

/// Why a command is turned down.
#[derive(Debug, Clone, Copy, PartialEq, Eq, Structural)]
pub enum Refusal {
    /// The command does not belong to the phase.
    InvalidState,
    /// There is no such command.
    UnknownCommand,
}

/// What is to be done about a command.
#[derive(Debug, Clone, Copy, PartialEq, Eq, Structural)]
pub enum Step {
    /// Nothing.
    Stay,
    /// Go on to this phase without asking the server.
    Goto { phase: Phase, is_my_action: bool },
    /// Carry out the named task and settle its result.
    Do { task: Task },
    /// Turn the command down.
    Refuse { why: Refusal },
}

/// How a task ended.
#[derive(Debug, Clone, Copy, PartialEq, Eq, Structural)]
pub enum Outcome {
    /// It went through. `flag` is the answer to a question that was asked.
    Done { flag: bool },
    /// It failed. `wrong_state` says that the server was in another phase
    /// than the task needs.
    Failed { wrong_state: bool },
}

/// Where the participant goes once a task has ended.
#[derive(Debug, Clone, Copy, PartialEq, Eq, Structural)]
pub enum Settled {
    /// To this phase. With `failed` the error of the task is reported too.
    Phase { phase: Phase, is_my_action: bool, failed: bool },
    /// Nowhere yet: the named task has to be carried out first and its
    /// result settled in turn.
    Then { task: Task },
}

/// The command that the first word of a line stands for.
pub open spec fn command_of(word: Seq<char>) -> Command {
    if word.len() == 0 {
        Command::Empty
    } else if word == "next"@ {
        Command::Next
    } else if word == "move"@ {
        Command::Move
    } else if word == "lay"@ {
        Command::Lay
    } else if word == "pickup"@ {
        Command::Pickup
    } else if word == "status"@ {
        Command::Status
    } else if word[0] == '#' {
        Command::Comment
    } else {
        Command::Unknown
    }
}

/// The place of a phase in the order in which a participant passes
/// through the phases.
pub open spec fn rank(phase: Phase) -> nat {
    match phase {
        Phase::Init => 0,
        Phase::Setup => 1,
        Phase::ConcludedRegistration => 2,
        Phase::SubmittedSks => 3,
        Phase::ConcludedSubmitSks => 4,
        Phase::InitGame => 5,
        Phase::SetupGame => 6,
        Phase::ConcludedSetupGame => 7,
        Phase::GameAction => 8,
        Phase::CompletedFhe => 9,
        Phase::DownloadedOutput => 10,
        Phase::ConcludedDecryptionSubmission => 11,
        Phase::Decrypted => 12,
    }
}

/// What `next` asks for in each phase.
pub open spec fn next_step(phase: Phase, is_my_action: bool) -> Step {
    match phase {
        Phase::Init => Step::Do { task: Task::Register },
        Phase::Setup => Step::Do { task: Task::FetchNames },
        Phase::ConcludedRegistration => Step::Do { task: Task::SubmitSks },
        Phase::SubmittedSks => Step::Do { task: Task::CheckSksComplete },
        Phase::ConcludedSubmitSks => Step::Do { task: Task::InitGame },
        Phase::InitGame => Step::Do { task: Task::SetStartingCoords },
        Phase::SetupGame => Step::Do { task: Task::CheckSetupComplete },
        Phase::ConcludedSetupGame => Step::Goto { phase: Phase::CompletedFhe, is_my_action: false },
        Phase::GameAction => Step::Do { task: Task::CheckFheComplete },
        Phase::CompletedFhe => Step::Do {
            task: Task::DownloadOutput { submit_shares: !is_my_action },
        },
        Phase::DownloadedOutput => if is_my_action {
            Step::Do { task: Task::CheckSharesComplete }
        } else {
            Step::Goto { phase: Phase::Decrypted, is_my_action: false }
        },
        Phase::ConcludedDecryptionSubmission => Step::Do { task: Task::DownloadShares },
        Phase::Decrypted => Step::Stay,
    }
}

/// What is to be done about `command` in `phase`.
pub open spec fn plan_of(phase: Phase, is_my_action: bool, command: Command) -> Step {
    match command {
        Command::Empty | Command::Comment => Step::Stay,
        Command::Unknown => Step::Refuse { why: Refusal::UnknownCommand },
        Command::Status => Step::Do { task: Task::ShowDashboard },
        Command::Next => next_step(phase, is_my_action),
        Command::Move => if phase == Phase::ConcludedSetupGame {
            Step::Do { task: Task::Move }
        } else {
            Step::Refuse { why: Refusal::InvalidState }
        },
        Command::Lay => if phase == Phase::ConcludedSetupGame {
            Step::Do { task: Task::Lay }
        } else {
            Step::Refuse { why: Refusal::InvalidState }
        },
        Command::Pickup => if phase == Phase::ConcludedSetupGame {
            Step::Do { task: Task::Pickup }
        } else {
            Step::Refuse { why: Refusal::InvalidState }
        },
    }
}

/// The phase a task leads to when it goes through. `flag` is the answer to
/// the question the task asked, if it asked one.
pub open spec fn phase_after(phase: Phase, task: Task, flag: bool) -> Phase {
    match task {
        Task::Register => Phase::Setup,
        Task::FetchNames => if flag {
            Phase::ConcludedRegistration
        } else {
            Phase::Setup
        },
        Task::SubmitSks => Phase::SubmittedSks,
        Task::CheckSksComplete => if flag {
            Phase::ConcludedSubmitSks
        } else {
            Phase::SubmittedSks
        },
        Task::InitGame => Phase::InitGame,
        Task::SetStartingCoords => Phase::SetupGame,
        Task::CheckSetupComplete => if flag {
            Phase::ConcludedSetupGame
        } else {
            Phase::SetupGame
        },
        Task::Move | Task::Lay | Task::Pickup => Phase::GameAction,
        Task::CheckFheOngoing => if flag {
            Phase::GameAction
        } else {
            Phase::ConcludedSetupGame
        },
        Task::CheckFheComplete => if flag {
            Phase::CompletedFhe
        } else {
            Phase::GameAction
        },
        Task::DownloadOutput { .. } => Phase::DownloadedOutput,
        Task::CheckSharesComplete => if flag {
            Phase::ConcludedDecryptionSubmission
        } else {
            Phase::DownloadedOutput
        },
        Task::DownloadShares => Phase::Decrypted,
        Task::ShowDashboard => phase,
    }
}

/// The task is an action of the player on the board.
pub open spec fn is_action(task: Task) -> bool {
    task is Move || task is Lay || task is Pickup
}

/// Where the participant goes once `task`, begun in `phase`, has ended.
///
/// A task that goes through leads on. An action of the player makes the
/// round the player's own. An action that the server turns down because it
/// is in another phase may have come second to the action of another
/// player: the participant asks whether the computation is under way, and
/// if it is, goes on to open that player's output; if it is not, the action
/// has failed. Any other failure leaves the participant where it was, but
/// for the opening of the output, which falls back to waiting for the
/// shares.
pub open spec fn settled_of(
    phase: Phase,
    is_my_action: bool,
    task: Task,
    outcome: Outcome,
) -> Settled {
    match outcome {
        Outcome::Done { flag } => if task is CheckFheOngoing {
            Settled::Phase {
                phase: phase_after(phase, task, flag),
                is_my_action: false,
                failed: !flag,
            }
        } else {
            Settled::Phase {
                phase: phase_after(phase, task, flag),
                is_my_action: if is_action(task) {
                    true
                } else {
                    is_my_action
                },
                failed: false,
            }
        },
        Outcome::Failed { wrong_state } => if is_action(task) && wrong_state {
            Settled::Then { task: Task::CheckFheOngoing }
        } else if task is DownloadShares {
            Settled::Phase { phase: Phase::DownloadedOutput, is_my_action, failed: true }
        } else {
            Settled::Phase { phase, is_my_action, failed: true }
        },
    }
}

/// Reads the first word of a line as a command.
pub fn parse_command(word: &str) -> (command: Command)
    ensures
        command == command_of(word@),
{
    let typed = String::from_str(word);
    if word.unicode_len() == 0 {
        Command::Empty
    } else if typed == String::from_str("next") {
        Command::Next
    } else if typed == String::from_str("move") {
        Command::Move
    } else if typed == String::from_str("lay") {
        Command::Lay
    } else if typed == String::from_str("pickup") {
        Command::Pickup
    } else if typed == String::from_str("status") {
        Command::Status
    } else if word.get_char(0) == '#' {
        Command::Comment
    } else {
        Command::Unknown
    }
}

/// Decides what is to be done about `command` in `phase`.
pub fn plan(phase: Phase, is_my_action: bool, command: Command) -> (step: Step)
    ensures
        step == plan_of(phase, is_my_action, command),
{
    match command {
        Command::Empty | Command::Comment => Step::Stay,
        Command::Unknown => Step::Refuse { why: Refusal::UnknownCommand },
        Command::Status => Step::Do { task: Task::ShowDashboard },
        Command::Next => match phase {
            Phase::Init => Step::Do { task: Task::Register },
            Phase::Setup => Step::Do { task: Task::FetchNames },
            Phase::ConcludedRegistration => Step::Do { task: Task::SubmitSks },
            Phase::SubmittedSks => Step::Do { task: Task::CheckSksComplete },
            Phase::ConcludedSubmitSks => Step::Do { task: Task::InitGame },
            Phase::InitGame => Step::Do { task: Task::SetStartingCoords },
            Phase::SetupGame => Step::Do { task: Task::CheckSetupComplete },
            Phase::ConcludedSetupGame => Step::Goto {
                phase: Phase::CompletedFhe,
                is_my_action: false,
            },
            Phase::GameAction => Step::Do { task: Task::CheckFheComplete },
            Phase::CompletedFhe => Step::Do {
                task: Task::DownloadOutput { submit_shares: !is_my_action },
            },
            Phase::DownloadedOutput => {
                if is_my_action {
                    Step::Do { task: Task::CheckSharesComplete }
                } else {
                    Step::Goto { phase: Phase::Decrypted, is_my_action: false }
                }
            },
            Phase::ConcludedDecryptionSubmission => Step::Do { task: Task::DownloadShares },
            Phase::Decrypted => Step::Stay,
        },
        Command::Move | Command::Lay | Command::Pickup => {
            if phase == Phase::ConcludedSetupGame {
                let task = match command {
                    Command::Move => Task::Move,
                    Command::Lay => Task::Lay,
                    _ => Task::Pickup,
                };
                Step::Do { task }
            } else {
                Step::Refuse { why: Refusal::InvalidState }
            }
        },
    }
}

/// Decides where the participant goes once `task`, begun in `phase`, has
/// ended.
pub fn settle(phase: Phase, is_my_action: bool, task: Task, outcome: Outcome) -> (settled: Settled)
    ensures
        settled == settled_of(phase, is_my_action, task, outcome),
{
    let action = match task {
        Task::Move | Task::Lay | Task::Pickup => true,
        _ => false,
    };
    match outcome {
        Outcome::Done { flag } => {
            let next = match task {
                Task::Register => Phase::Setup,
                Task::FetchNames => if flag {
                    Phase::ConcludedRegistration
                } else {
                    Phase::Setup
                },
                Task::SubmitSks => Phase::SubmittedSks,
                Task::CheckSksComplete => if flag {
                    Phase::ConcludedSubmitSks
                } else {
                    Phase::SubmittedSks
                },
                Task::InitGame => Phase::InitGame,
                Task::SetStartingCoords => Phase::SetupGame,
                Task::CheckSetupComplete => if flag {
                    Phase::ConcludedSetupGame
                } else {
                    Phase::SetupGame
                },
                Task::Move | Task::Lay | Task::Pickup => Phase::GameAction,
                Task::CheckFheOngoing => if flag {
                    Phase::GameAction
                } else {
                    Phase::ConcludedSetupGame
                },
                Task::CheckFheComplete => if flag {
                    Phase::CompletedFhe
                } else {
                    Phase::GameAction
                },
                Task::DownloadOutput { .. } => Phase::DownloadedOutput,
                Task::CheckSharesComplete => if flag {
                    Phase::ConcludedDecryptionSubmission
                } else {
                    Phase::DownloadedOutput
                },
                Task::DownloadShares => Phase::Decrypted,
                Task::ShowDashboard => phase,
            };
            match task {
                Task::CheckFheOngoing => Settled::Phase {
                    phase: next,
                    is_my_action: false,
                    failed: !flag,
                },
                _ => Settled::Phase {
                    phase: next,
                    is_my_action: action || is_my_action,
                    failed: false,
                },
            }
        },
        Outcome::Failed { wrong_state } => {
            if action && wrong_state {
                Settled::Then { task: Task::CheckFheOngoing }
            } else {
                match task {
                    Task::DownloadShares => Settled::Phase {
                        phase: Phase::DownloadedOutput,
                        is_my_action,
                        failed: true,
                    },
                    _ => Settled::Phase { phase, is_my_action, failed: true },
                }
            }
        },
    }
}

/// The task that `command` leads to in `phase`, if it leads to one.
pub open spec fn task_of(phase: Phase, is_my_action: bool, command: Command) -> Option<Task> {
    match plan_of(phase, is_my_action, command) {
        Step::Do { task } => Some(task),
        _ => None,
    }
}

/// A task that a command leads to never takes the participant back: where
/// it ends, the participant is in the phase it was in or in a later one.
/// The one exception is the opening of the output, which on failure falls
/// back to waiting for the shares.
pub proof fn lemma_no_step_back(
    phase: Phase,
    is_my_action: bool,
    command: Command,
    outcome: Outcome,
)
    requires
        task_of(phase, is_my_action, command) is Some,
        !(task_of(phase, is_my_action, command) == Some(Task::DownloadShares) && outcome is Failed),
    ensures
        settled_of(
            phase,
            is_my_action,
            task_of(phase, is_my_action, command)->0,
            outcome,
        ) matches Settled::Phase { phase: next, .. } ==> rank(next) >= rank(phase),
{
}

/// A task that fails leaves the round as it was: whether the round is the
/// participant's own does not change.
pub proof fn lemma_failure_keeps_round(
    phase: Phase,
    is_my_action: bool,
    task: Task,
    wrong_state: bool,
)
    ensures
        settled_of(phase, is_my_action, task, Outcome::Failed { wrong_state }) matches Settled::Phase {
            is_my_action: after,
            failed,
            ..
        } ==> after == is_my_action && failed,
{
}

impl Phase {
    /// The name under which the phase is shown.
    pub open spec fn title(self) -> Seq<char> {
        match self {
            Phase::Init => "Initialization"@,
            Phase::Setup => "Setup"@,
            Phase::ConcludedRegistration => "Concluded Registration"@,
            Phase::SubmittedSks => "Submitted Server Key Share"@,
            Phase::ConcludedSubmitSks => "Concluded SubmitSks"@,
            Phase::InitGame => "Init game"@,
            Phase::SetupGame => "Setup game"@,
            Phase::ConcludedSetupGame => "Concluded setup game"@,
            Phase::GameAction => "A player took an action"@,
            Phase::CompletedFhe => "Completed FHE"@,
            Phase::DownloadedOutput => "Downloaded Output"@,
            Phase::ConcludedDecryptionSubmission => "Concluded decryption share submission"@,
            Phase::Decrypted => "Decrypted"@,
        }
    }

    /// The phase as it is shown: its name between double braces.
    pub open spec fn label(self) -> Seq<char> {
        "{{ "@ + self.title() + " }}"@
    }

    /// What a participant is told on reaching the phase. `name` is the
    /// name of the participant and `url` the address of the server.
    pub open spec fn status_update(self, name: Seq<char>, url: Seq<char>) -> Seq<char> {
        match self {
            Phase::Init => "Hi "@ + name + ", we just connected to server "@ + url + "."@,
            Phase::Setup => "\u{2705} Setup completed!"@,
            Phase::ConcludedRegistration => "\u{2705} Got 4 players!"@,
            Phase::SubmittedSks => "\u{2705} Server key share submitted!"@,
            Phase::ConcludedSubmitSks => "\u{2705} Got all 4 server key shares!"@,
            Phase::InitGame => "\u{2705} New game start!"@,
            Phase::SetupGame => "\u{2705} Set starting coordinates!"@,
            Phase::ConcludedSetupGame => "\u{2705} Got all 4 starting coordinates!"@,
            Phase::GameAction => "\u{2705} A player took an action!"@,
            Phase::CompletedFhe => "\u{2705} Completed FHE!"@,
            Phase::DownloadedOutput => "\u{2705} FHE output downloaded!"@,
            Phase::ConcludedDecryptionSubmission => "\u{2705} Decryption shares submitted!"@,
            Phase::Decrypted => "\u{2705} FHE output decrypted!"@,
        }
    }

    /// What a participant is asked to do next in the phase.
    pub open spec fn instruction(self) -> Seq<char> {
        match self {
            Phase::Setup => "\u{1F447} We need 4 players. Enter `next` to check if we can proceed."@,
            Phase::SubmittedSks => "\u{1F447} Server needs to get all 4 server key shares. Enter `next` to check if we can proceed."@,
            Phase::ConcludedSubmitSks => "\u{1F447} Enter `next` to start a new game."@,
            Phase::InitGame => "\u{1F447} Enter `next ${x} ${y}` with your starting coordinates (x, y).\n The board is 4 x 4, so x, y has to be in the range [0, 3]."@,
            Phase::SetupGame => "\u{1F447} Wait for every user to set starting coordinates. Enter `next` to check if we can proceed."@,
            Phase::ConcludedSetupGame => "\u{1F447} Enter one of the commands {`move up` | `move down` | `move left` | `move right` | `lay` | `pickup`}"@,
            Phase::GameAction => "\u{1F447} Server running FHE. Enter `next` to check if it completed"@,
            Phase::DownloadedOutput => "\u{1F447} Wait for other players to submit decryption shares. Enter `next` to check if we can proceed."@,
            Phase::Decrypted => "\u{1F447} Exit with `CTRL-D`"@,
            _ => "\u{1F447} Enter `next` to continue"@,
        }
    }

    fn title_text(self) -> (s: &'static str)
        ensures
            s@ == self.title(),
    {
        match self {
            Phase::Init => "Initialization",
            Phase::Setup => "Setup",
            Phase::ConcludedRegistration => "Concluded Registration",
            Phase::SubmittedSks => "Submitted Server Key Share",
            Phase::ConcludedSubmitSks => "Concluded SubmitSks",
            Phase::InitGame => "Init game",
            Phase::SetupGame => "Setup game",
            Phase::ConcludedSetupGame => "Concluded setup game",
            Phase::GameAction => "A player took an action",
            Phase::CompletedFhe => "Completed FHE",
            Phase::DownloadedOutput => "Downloaded Output",
            Phase::ConcludedDecryptionSubmission => "Concluded decryption share submission",
            Phase::Decrypted => "Decrypted",
        }
    }

    /// Writes the phase as it is shown.
    pub fn to_string(&self) -> (s: String)
        ensures
            s@ == self.label(),
    {
        String::from_str("{{ ").concat(self.title_text()).concat(" }}")
    }

    /// Writes what a participant is told on reaching the phase.
    pub fn status_update_text(&self, name: &str, url: &str) -> (s: String)
        ensures
            s@ == self.status_update(name@, url@),
    {
        match self {
            Phase::Init => String::from_str("Hi ").concat(name).concat(
                ", we just connected to server ",
            ).concat(url).concat("."),
            Phase::Setup => String::from_str("\u{2705} Setup completed!"),
            Phase::ConcludedRegistration => String::from_str("\u{2705} Got 4 players!"),
            Phase::SubmittedSks => String::from_str("\u{2705} Server key share submitted!"),
            Phase::ConcludedSubmitSks => String::from_str("\u{2705} Got all 4 server key shares!"),
            Phase::InitGame => String::from_str("\u{2705} New game start!"),
            Phase::SetupGame => String::from_str("\u{2705} Set starting coordinates!"),
            Phase::ConcludedSetupGame => String::from_str("\u{2705} Got all 4 starting coordinates!"),
            Phase::GameAction => String::from_str("\u{2705} A player took an action!"),
            Phase::CompletedFhe => String::from_str("\u{2705} Completed FHE!"),
            Phase::DownloadedOutput => String::from_str("\u{2705} FHE output downloaded!"),
            Phase::ConcludedDecryptionSubmission => String::from_str("\u{2705} Decryption shares submitted!"),
            Phase::Decrypted => String::from_str("\u{2705} FHE output decrypted!"),
        }
    }

    /// Writes what a participant is asked to do next in the phase.
    pub fn instruction_text(&self) -> (s: String)
        ensures
            s@ == self.instruction(),
    {
        match self {
            Phase::Setup => String::from_str("\u{1F447} We need 4 players. Enter `next` to check if we can proceed."),
            Phase::SubmittedSks => String::from_str("\u{1F447} Server needs to get all 4 server key shares. Enter `next` to check if we can proceed."),
            Phase::ConcludedSubmitSks => String::from_str("\u{1F447} Enter `next` to start a new game."),
            Phase::InitGame => String::from_str("\u{1F447} Enter `next ${x} ${y}` with your starting coordinates (x, y).\n The board is 4 x 4, so x, y has to be in the range [0, 3]."),
            Phase::SetupGame => String::from_str("\u{1F447} Wait for every user to set starting coordinates. Enter `next` to check if we can proceed."),
            Phase::ConcludedSetupGame => String::from_str("\u{1F447} Enter one of the commands {`move up` | `move down` | `move left` | `move right` | `lay` | `pickup`}"),
            Phase::GameAction => String::from_str("\u{1F447} Server running FHE. Enter `next` to check if it completed"),
            Phase::DownloadedOutput => String::from_str("\u{1F447} Wait for other players to submit decryption shares. Enter `next` to check if we can proceed."),
            Phase::Decrypted => String::from_str("\u{1F447} Exit with `CTRL-D`"),
            _ => String::from_str("\u{1F447} Enter `next` to continue"),
        }
    }
}

} // verus!
