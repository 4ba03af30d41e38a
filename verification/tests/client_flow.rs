use chickens::client_flow::{
    parse_command, plan, settle, Command, Outcome, Phase, Refusal, Settled, Step, Task,
};

const PHASES: [Phase; 13] = [
    Phase::Init,
    Phase::Setup,
    Phase::ConcludedRegistration,
    Phase::SubmittedSks,
    Phase::ConcludedSubmitSks,
    Phase::InitGame,
    Phase::SetupGame,
    Phase::ConcludedSetupGame,
    Phase::GameAction,
    Phase::CompletedFhe,
    Phase::DownloadedOutput,
    Phase::ConcludedDecryptionSubmission,
    Phase::Decrypted,
];

fn to(phase: Phase, is_my_action: bool) -> Settled {
    Settled::Phase { phase, is_my_action, failed: false }
}

#[test]
fn lines_are_read_as_commands() {
    assert_eq!(parse_command(""), Command::Empty);
    assert_eq!(parse_command("next"), Command::Next);
    assert_eq!(parse_command("move"), Command::Move);
    assert_eq!(parse_command("lay"), Command::Lay);
    assert_eq!(parse_command("pickup"), Command::Pickup);
    assert_eq!(parse_command("status"), Command::Status);
    assert_eq!(parse_command("#"), Command::Comment);
    assert_eq!(parse_command("#next"), Command::Comment);
    assert_eq!(parse_command("Next"), Command::Unknown);
    assert_eq!(parse_command("nextt"), Command::Unknown);
    assert_eq!(parse_command("\u{1F413}"), Command::Unknown);
}

#[test]
fn next_walks_through_the_phases() {
    let tasks = [
        Some(Task::Register),
        Some(Task::FetchNames),
        Some(Task::SubmitSks),
        Some(Task::CheckSksComplete),
        Some(Task::InitGame),
        Some(Task::SetStartingCoords),
        Some(Task::CheckSetupComplete),
        None,
        Some(Task::CheckFheComplete),
        Some(Task::DownloadOutput { submit_shares: false }),
        Some(Task::CheckSharesComplete),
        Some(Task::DownloadShares),
        None,
    ];
    for (phase, task) in PHASES.iter().zip(tasks) {
        let step = plan(*phase, true, Command::Next);
        match task {
            Some(task) => assert_eq!(step, Step::Do { task }),
            None if *phase == Phase::Decrypted => assert_eq!(step, Step::Stay),
            None => {
                assert_eq!(step, Step::Goto { phase: Phase::CompletedFhe, is_my_action: false })
            }
        }
    }
    assert_eq!(
        plan(Phase::CompletedFhe, false, Command::Next),
        Step::Do { task: Task::DownloadOutput { submit_shares: true } }
    );
    assert_eq!(
        plan(Phase::DownloadedOutput, false, Command::Next),
        Step::Goto { phase: Phase::Decrypted, is_my_action: false }
    );
}

#[test]
fn actions_belong_to_one_phase() {
    for phase in PHASES {
        for (command, task) in
            [(Command::Move, Task::Move), (Command::Lay, Task::Lay), (Command::Pickup, Task::Pickup)]
        {
            let expected = if phase == Phase::ConcludedSetupGame {
                Step::Do { task }
            } else {
                Step::Refuse { why: Refusal::InvalidState }
            };
            assert_eq!(plan(phase, false, command), expected);
        }
        assert_eq!(plan(phase, false, Command::Status), Step::Do { task: Task::ShowDashboard });
        assert_eq!(plan(phase, false, Command::Empty), Step::Stay);
        assert_eq!(plan(phase, true, Command::Comment), Step::Stay);
        assert_eq!(
            plan(phase, true, Command::Unknown),
            Step::Refuse { why: Refusal::UnknownCommand }
        );
    }
}

#[test]
fn answers_lead_on() {
    let yes = Outcome::Done { flag: true };
    let no = Outcome::Done { flag: false };
    assert_eq!(settle(Phase::Init, false, Task::Register, yes), to(Phase::Setup, false));
    assert_eq!(settle(Phase::Setup, false, Task::FetchNames, yes), to(Phase::ConcludedRegistration, false));
    assert_eq!(settle(Phase::Setup, false, Task::FetchNames, no), to(Phase::Setup, false));
    assert_eq!(settle(Phase::ConcludedRegistration, false, Task::SubmitSks, no), to(Phase::SubmittedSks, false));
    assert_eq!(settle(Phase::SubmittedSks, false, Task::CheckSksComplete, yes), to(Phase::ConcludedSubmitSks, false));
    assert_eq!(settle(Phase::SubmittedSks, false, Task::CheckSksComplete, no), to(Phase::SubmittedSks, false));
    assert_eq!(settle(Phase::ConcludedSubmitSks, false, Task::InitGame, yes), to(Phase::InitGame, false));
    assert_eq!(settle(Phase::InitGame, false, Task::SetStartingCoords, yes), to(Phase::SetupGame, false));
    assert_eq!(settle(Phase::SetupGame, false, Task::CheckSetupComplete, yes), to(Phase::ConcludedSetupGame, false));
    assert_eq!(settle(Phase::SetupGame, false, Task::CheckSetupComplete, no), to(Phase::SetupGame, false));
    for task in [Task::Move, Task::Lay, Task::Pickup] {
        assert_eq!(settle(Phase::ConcludedSetupGame, false, task, yes), to(Phase::GameAction, true));
    }
    assert_eq!(settle(Phase::GameAction, true, Task::CheckFheComplete, yes), to(Phase::CompletedFhe, true));
    assert_eq!(settle(Phase::GameAction, false, Task::CheckFheComplete, no), to(Phase::GameAction, false));
    assert_eq!(
        settle(Phase::CompletedFhe, true, Task::DownloadOutput { submit_shares: false }, yes),
        to(Phase::DownloadedOutput, true)
    );
    assert_eq!(
        settle(Phase::DownloadedOutput, true, Task::CheckSharesComplete, yes),
        to(Phase::ConcludedDecryptionSubmission, true)
    );
    assert_eq!(
        settle(Phase::DownloadedOutput, true, Task::CheckSharesComplete, no),
        to(Phase::DownloadedOutput, true)
    );
    assert_eq!(
        settle(Phase::ConcludedDecryptionSubmission, true, Task::DownloadShares, yes),
        to(Phase::Decrypted, true)
    );
    assert_eq!(settle(Phase::SetupGame, true, Task::ShowDashboard, yes), to(Phase::SetupGame, true));
}

#[test]
fn failures_are_settled() {
    let failed = Outcome::Failed { wrong_state: false };
    let turned_down = Outcome::Failed { wrong_state: true };
    assert_eq!(
        settle(Phase::Init, false, Task::Register, failed),
        Settled::Phase { phase: Phase::Init, is_my_action: false, failed: true }
    );
    assert_eq!(
        settle(Phase::Init, false, Task::Register, turned_down),
        Settled::Phase { phase: Phase::Init, is_my_action: false, failed: true }
    );
    assert_eq!(
        settle(Phase::ConcludedDecryptionSubmission, true, Task::DownloadShares, failed),
        Settled::Phase { phase: Phase::DownloadedOutput, is_my_action: true, failed: true }
    );
    for task in [Task::Move, Task::Lay, Task::Pickup] {
        assert_eq!(
            settle(Phase::ConcludedSetupGame, false, task, failed),
            Settled::Phase { phase: Phase::ConcludedSetupGame, is_my_action: false, failed: true }
        );
        assert_eq!(
            settle(Phase::ConcludedSetupGame, false, task, turned_down),
            Settled::Then { task: Task::CheckFheOngoing }
        );
    }
    assert_eq!(
        settle(Phase::ConcludedSetupGame, false, Task::CheckFheOngoing, Outcome::Done { flag: true }),
        Settled::Phase { phase: Phase::GameAction, is_my_action: false, failed: false }
    );
    assert_eq!(
        settle(Phase::ConcludedSetupGame, false, Task::CheckFheOngoing, Outcome::Done { flag: false }),
        Settled::Phase { phase: Phase::ConcludedSetupGame, is_my_action: false, failed: true }
    );
    assert_eq!(
        settle(Phase::ConcludedSetupGame, false, Task::CheckFheOngoing, failed),
        Settled::Phase { phase: Phase::ConcludedSetupGame, is_my_action: false, failed: true }
    );
}

#[test]
fn phases_have_texts() {
    assert_eq!(Phase::Init.to_string(), "{{ Initialization }}");
    assert_eq!(Phase::SubmittedSks.to_string(), "{{ Submitted Server Key Share }}");
    assert_eq!(Phase::Decrypted.to_string(), "{{ Decrypted }}");
    assert_eq!(
        Phase::Init.status_update_text("Barry", "http://localhost:8000"),
        "Hi Barry, we just connected to server http://localhost:8000."
    );
    assert_eq!(Phase::Setup.status_update_text("x", "y"), "\u{2705} Setup completed!");
    assert_eq!(Phase::Decrypted.status_update_text("x", "y"), "\u{2705} FHE output decrypted!");
    assert_eq!(Phase::Init.instruction_text(), "\u{1F447} Enter `next` to continue");
    assert_eq!(
        Phase::Setup.instruction_text(),
        "\u{1F447} We need 4 players. Enter `next` to check if we can proceed."
    );
    assert_eq!(
        Phase::InitGame.instruction_text(),
        "\u{1F447} Enter `next ${x} ${y}` with your starting coordinates (x, y).\n The board is 4 x 4, so x, y has to be in the range [0, 3]."
    );
    assert_eq!(Phase::Decrypted.instruction_text(), "\u{1F447} Exit with `CTRL-D`");
}
