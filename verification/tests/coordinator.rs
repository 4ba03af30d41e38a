use chickens::{
    CircuitOutput, Error, Flavor, RunOutcome, ServerState, ServerStorage, UserAction, UserStatus,
    UserStorage,
};

type Storage = ServerStorage<u64, bool>;

fn karma_ready(quota: usize) -> Storage {
    let mut storage = Storage::new([7u8; 32], Flavor::Karma, quota);
    for i in 0..quota {
        let user = storage.register(&format!("User {i}")).unwrap();
        assert_eq!(user.id, i);
    }
    for i in 0..quota {
        assert_eq!(storage.submit_sks(i, 100 + i as u64), Ok(i));
    }
    storage
}

#[test]
fn registration_closes_at_quota() {
    let mut storage = Storage::new([0u8; 32], Flavor::Karma, 2);
    assert_eq!(storage.seed(), [0u8; 32]);
    assert_eq!(storage.state(), ServerState::ReadyForJoining);
    let first = storage.register("Barry").unwrap();
    assert_eq!((first.id, first.name.as_str(), first.status), (0, "Barry", UserStatus::IDAcquired));
    assert_eq!(storage.state(), ServerState::ReadyForJoining);
    let second = storage.register("Justin").unwrap();
    assert_eq!(second.id, 1);
    assert_eq!(storage.state(), ServerState::ReadyForServerKeyShares);
    let err = storage.register("Brian").unwrap_err();
    assert_eq!(
        err,
        Error::WrongState {
            expected: ServerState::ReadyForJoining,
            actual: ServerState::ReadyForServerKeyShares
        }
    );
    assert_eq!(storage.user_count(), 2);
}

#[test]
fn key_shares_are_gated_by_state_and_user() {
    let mut storage = Storage::new([0u8; 32], Flavor::Karma, 2);
    assert_eq!(
        storage.submit_sks(0, 1),
        Err(Error::WrongState {
            expected: ServerState::ReadyForServerKeyShares,
            actual: ServerState::ReadyForJoining
        })
    );
    storage.register("a").unwrap();
    storage.register("b").unwrap();
    assert_eq!(storage.submit_sks(2, 1), Err(Error::UnregisteredUser { user_id: 2 }));
    assert_eq!(storage.get_sks().unwrap_err(), Error::MissingSubmission { user_id: 0 });
    assert_eq!(storage.submit_sks(0, 11), Ok(0));
    assert!(!storage.check_cipher_submission());
    assert_eq!(storage.get_sks().unwrap_err(), Error::MissingSubmission { user_id: 1 });
    assert_eq!(storage.state(), ServerState::ReadyForServerKeyShares);
    assert_eq!(storage.submit_sks(1, 22), Ok(1));
    assert!(storage.check_cipher_submission());
    assert_eq!(storage.get_sks().unwrap(), vec![&11, &22]);
    assert_eq!(storage.state(), ServerState::ReadyForRunning);
}

#[test]
fn only_the_first_trigger_starts_the_run() {
    let mut storage = karma_ready(3);
    let mut started = 0;
    for caller in 0..5 {
        match storage.run(caller % 3).unwrap() {
            RunOutcome::Started(inputs) => {
                started += 1;
                assert_eq!(inputs.key_material, vec![100, 101, 102]);
                assert_eq!(inputs.user_id, 0);
                assert!(inputs.game_state.is_none());
                assert!(inputs.actions.is_empty());
            }
            RunOutcome::AlreadyRunning => {}
            RunOutcome::AlreadyCompleted => panic!("nothing has completed yet"),
        }
        assert_eq!(storage.state(), ServerState::RunningFhe);
    }
    assert_eq!(started, 1);
    for i in 0..3 {
        assert!(matches!(storage.get_user(i).unwrap().storage, UserStorage::DecryptionShare(None)));
    }
    assert_eq!(storage.get_fhe_output().unwrap_err(), Error::OutputNotReady);
    storage.complete_run(None, vec![CircuitOutput::new(vec![true, false])]).unwrap();
    assert_eq!(storage.state(), ServerState::CompletedFhe);
    for caller in 0..3 {
        let outcome = storage.run(caller).unwrap();
        assert!(matches!(outcome, RunOutcome::AlreadyCompleted));
        assert_eq!(outcome.state(), ServerState::CompletedFhe);
    }
    assert_eq!(storage.get_fhe_output().unwrap()[0].cell(), &vec![true, false]);
    assert_eq!(
        storage.complete_run(None, vec![]),
        Err(Error::WrongState {
            expected: ServerState::RunningFhe,
            actual: ServerState::CompletedFhe
        })
    );
}

#[test]
fn trigger_outside_its_states_is_refused() {
    let mut storage = Storage::new([0u8; 32], Flavor::Karma, 2);
    assert_eq!(
        storage.run(0).unwrap_err(),
        Error::WrongState {
            expected: ServerState::ReadyForRunning,
            actual: ServerState::ReadyForJoining
        }
    );
    assert_eq!(storage.state(), ServerState::ReadyForJoining);
    assert_eq!(storage.user_count(), 0);
}

#[test]
fn decryption_shares_are_collected_only_when_complete() {
    let mut storage = karma_ready(3);
    assert_eq!(
        storage.get_decryption_share(0, 0).unwrap_err(),
        Error::DecryptionShareNotFound { output_id: 0, user_id: 0 }
    );
    assert_eq!(
        storage.collect_decryption_shares(0).unwrap_err(),
        Error::DecryptionShareNotFound { output_id: 0, user_id: 0 }
    );
    assert_eq!(
        storage.submit_decryption_share(0, vec![vec![1]]),
        Err(Error::WrongState {
            expected: ServerState::CompletedFhe,
            actual: ServerState::ReadyForRunning
        })
    );
    storage.run(0).unwrap();
    storage
        .complete_run(None, vec![CircuitOutput::new(vec![true]), CircuitOutput::new(vec![false])])
        .unwrap();
    assert_eq!(
        storage.get_decryption_share(0, 1).unwrap_err(),
        Error::DecryptionShareNotFound { output_id: 0, user_id: 1 }
    );
    assert_eq!(storage.submit_decryption_share(0, vec![vec![10], vec![11]]), Ok(0));
    assert_eq!(storage.submit_decryption_share(1, vec![vec![20], vec![21]]), Ok(1));
    assert_eq!(
        storage.submit_decryption_share(3, vec![]),
        Err(Error::UnregisteredUser { user_id: 3 })
    );
    assert_eq!(
        storage.collect_decryption_shares(1).unwrap_err(),
        Error::DecryptionShareNotFound { output_id: 1, user_id: 2 }
    );
    assert_eq!(storage.submit_decryption_share(2, vec![vec![30], vec![31]]), Ok(2));
    assert_eq!(storage.collect_decryption_shares(1).unwrap(), vec![&vec![11], &vec![21], &vec![31]]);
    assert_eq!(storage.get_decryption_share(0, 2).unwrap(), &vec![30]);
    assert_eq!(
        storage.get_decryption_share(2, 0).unwrap_err(),
        Error::DecryptionShareNotFound { output_id: 2, user_id: 0 }
    );
    assert_eq!(
        storage.get_decryption_share(0, 9).unwrap_err(),
        Error::DecryptionShareNotFound { output_id: 0, user_id: 9 }
    );
    let dashboard = storage.get_dashboard();
    assert!(dashboard.is_fhe_complete());
    assert!(dashboard.is_decryption_shares_submission_complete(0));
    assert_eq!(dashboard.get_names(), vec!["User 0", "User 1", "User 2"]);
}

#[test]
fn game_goes_through_setup_actions_and_rounds() {
    let mut storage = Storage::new([1u8; 32], Flavor::Game, 2);
    storage.register("a").unwrap();
    storage.register("b").unwrap();
    storage.submit_sks(0, 1).unwrap();
    storage.submit_sks(1, 2).unwrap();
    assert_eq!(storage.state(), ServerState::ReadyForSetupGame);
    assert_eq!(
        storage.request_action(0, UserAction::LayEgg),
        Err(Error::WrongState {
            expected: ServerState::ReadyForActions,
            actual: ServerState::ReadyForSetupGame
        })
    );
    assert_eq!(
        storage.setup_game(0, UserAction::LayEgg),
        Err(Error::WrongState {
            expected: ServerState::ReadyForSetupGame,
            actual: ServerState::ReadyForSetupGame
        })
    );
    assert_eq!(storage.setup_game(0, UserAction::InitGame { initial_eggs: vec![false; 16] }), Ok(0));
    assert_eq!(
        storage.setup_game(1, UserAction::SetStartingCoord { starting_coord: vec![true; 16] }),
        Ok(1)
    );
    assert!(!storage.check_setup_game_complete());
    assert_eq!(storage.state(), ServerState::ReadyForSetupGame);
    assert_eq!(
        storage.setup_game(0, UserAction::SetStartingCoord { starting_coord: vec![false; 16] }),
        Ok(0)
    );
    assert_eq!(storage.state(), ServerState::ReadyForActions);
    assert_eq!(
        storage.request_action(1, UserAction::Done),
        Err(Error::WrongState {
            expected: ServerState::ReadyForActions,
            actual: ServerState::ReadyForActions
        })
    );
    assert_eq!(storage.request_action(1, UserAction::MovePlayer { direction: vec![true; 8] }), Ok(1));
    assert_eq!(storage.state(), ServerState::ReadyForRunning);
    let inputs = match storage.run(1).unwrap() {
        RunOutcome::Started(inputs) => inputs,
        _ => panic!("the first trigger starts the run"),
    };
    let game = inputs.game_state.unwrap();
    assert_eq!(game.eggs, vec![false; 16]);
    assert_eq!(game.coords, vec![Some(vec![false; 16]), Some(vec![true; 16])]);
    assert_eq!(inputs.actions.len(), 1);
    assert_eq!(inputs.actions[0].0, 1);
    storage.complete_run(Some(game), vec![CircuitOutput::new(vec![true; 5])]).unwrap();
    assert_eq!(storage.done(0, UserAction::Done), Ok(0));
    assert_eq!(storage.state(), ServerState::CompletedFhe);
    assert_eq!(
        storage.done(1, UserAction::GetCell),
        Err(Error::WrongState {
            expected: ServerState::CompletedFhe,
            actual: ServerState::CompletedFhe
        })
    );
    assert_eq!(storage.done(1, UserAction::Done), Ok(1));
    assert_eq!(storage.state(), ServerState::ReadyForActions);
    assert_eq!(storage.round(), 1);
    assert_eq!(storage.get_fhe_output().unwrap_err(), Error::OutputNotReady);
    assert!(storage.get_dashboard().is_ready_for_actions(0));
}

#[test]
fn game_without_setup_does_not_run() {
    let mut storage = Storage::new([1u8; 32], Flavor::Game, 1);
    storage.register("a").unwrap();
    storage.submit_sks(0, 1).unwrap();
    assert_eq!(storage.run(0).unwrap_err(), Error::WrongState {
        expected: ServerState::ReadyForRunning,
        actual: ServerState::ReadyForSetupGame
    });
}

#[test]
fn error_texts() {
    assert_eq!(
        Error::WrongState {
            expected: ServerState::ReadyForJoining,
            actual: ServerState::RunningFhe
        }
        .to_string(),
        "Wrong server state: expect [[ ReadyForJoining ]] but got [[ RunningFhe ]]"
    );
    assert_eq!(Error::UnregisteredUser { user_id: 12 }.to_string(), "User #12 is unregistered");
    assert_eq!(
        Error::MissingSubmission { user_id: 0 }.to_string(),
        "The ciphertext from user #0 not found"
    );
    assert_eq!(
        Error::DecryptionShareNotFound { output_id: 3, user_id: 105 }.to_string(),
        "Decryption share of 3 from user 105 not found"
    );
    assert_eq!(Error::OutputNotReady.to_string(), "Output not ready");
    assert_eq!(Error::GameNotInitedYet.to_string(), "Init action not performed yet");
    assert_eq!(ServerState::CompletedFhe.to_string(), "[[ CompletedFhe ]]");
}

#[test]
fn a_new_karma_round_collects_key_material_again() {
    let mut storage = karma_ready(2);
    storage.run(0).unwrap();
    storage.complete_run(None, vec![CircuitOutput::new(vec![true])]).unwrap();
    storage.submit_decryption_share(0, vec![vec![5]]).unwrap();
    assert_eq!(storage.done(0, UserAction::Done), Ok(0));
    assert_eq!(storage.state(), ServerState::CompletedFhe);
    assert_eq!(storage.round(), 0);
    assert_eq!(storage.done(1, UserAction::Done), Ok(1));
    assert_eq!(storage.state(), ServerState::ReadyForServerKeyShares);
    assert_eq!(storage.round(), 1);
    for i in 0..2 {
        let user = storage.get_user(i).unwrap();
        assert!(matches!(user.storage, UserStorage::Empty));
        assert!(!user.ready_for_new_round);
    }
    assert_eq!(storage.get_fhe_output().unwrap_err(), Error::OutputNotReady);
    assert_eq!(storage.submit_sks(1, 9), Ok(1));
    assert_eq!(storage.submit_sks(0, 8), Ok(0));
    assert_eq!(storage.state(), ServerState::ReadyForRunning);
    match storage.run(0).unwrap() {
        RunOutcome::Started(inputs) => assert_eq!(inputs.key_material, vec![8, 9]),
        _ => panic!("the first trigger of the new round starts the run"),
    }
}

#[test]
fn the_run_of_a_game_gives_the_game_back() {
    let mut storage = Storage::new([1u8; 32], Flavor::Game, 1);
    storage.register("a").unwrap();
    storage.submit_sks(0, 1).unwrap();
    storage
        .setup_game(0, UserAction::SetStartingCoord { starting_coord: vec![false; 16] })
        .unwrap();
    storage.request_action(0, UserAction::LayEgg).unwrap();
    let inputs = match storage.run(0).unwrap() {
        RunOutcome::Started(inputs) => inputs,
        _ => panic!("the first trigger starts the run"),
    };
    assert_eq!(storage.complete_run(None, vec![]), Err(Error::GameNotInitedYet));
    assert_eq!(storage.state(), ServerState::RunningFhe);
    assert_eq!(storage.complete_run(inputs.game_state, vec![]), Ok(()));
    assert_eq!(storage.state(), ServerState::CompletedFhe);
    assert_eq!(storage.get_fhe_output().unwrap().len(), 0);
}
