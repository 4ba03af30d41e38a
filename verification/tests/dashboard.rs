use chickens::text::decimal_string;
use chickens::{
    Dashboard, ErrorResponse, Error, RegisteredUser, RegistrationOut, ServerResponse, ServerState,
    UserRecord, UserStatus, UserStorage, TOTAL_USERS,
};

fn user(id: usize, status: UserStatus) -> RegisteredUser {
    RegisteredUser { id, name: format!("User {id}"), status }
}

#[test]
fn numbers_in_decimal() {
    assert_eq!(decimal_string(0), "0");
    assert_eq!(decimal_string(7), "7");
    assert_eq!(decimal_string(10), "10");
    assert_eq!(decimal_string(1234567890), "1234567890");
    assert_eq!(decimal_string(usize::MAX), usize::MAX.to_string());
}

#[test]
fn status_follows_the_slot() {
    let slots: Vec<(UserStorage<u8>, UserStatus)> = vec![
        (UserStorage::Empty, UserStatus::IDAcquired),
        (UserStorage::Sks(1), UserStatus::SksSubmitted),
        (UserStorage::StartingCoords, UserStatus::StartingCoordsSubmitted),
        (UserStorage::DecryptionShare(None), UserStatus::StartingCoordsSubmitted),
        (UserStorage::DecryptionShare(Some(vec![])), UserStatus::DecryptionShareSubmitted),
    ];
    for (storage, status) in slots {
        let record =
            UserRecord { id: 3, name: "Brian".to_string(), storage, ready_for_new_round: false };
        let shown = RegisteredUser::from_record(&record);
        assert_eq!((shown.id, shown.name.as_str(), shown.status), (3, "Brian", status));
    }
    let fresh = RegisteredUser::new(9, "Justin");
    assert_eq!((fresh.id, fresh.name.as_str(), fresh.status), (9, "Justin", UserStatus::IDAcquired));
    assert_eq!(UserStatus::IDAcquired.to_string(), "IDAcquired");
    assert_eq!(UserStatus::SksSubmitted.to_string(), "SksSubmitted");
    assert_eq!(UserStatus::StartingCoordsSubmitted.to_string(), "StartingCoordsSubmitted");
    assert_eq!(UserStatus::DecryptionShareSubmitted.to_string(), "DecryptionShareSubmitted");
}

#[test]
fn slots_hand_out_what_they_hold() {
    let mut slot: UserStorage<u8> = UserStorage::Sks(7);
    assert_eq!(slot.get_cipher_sks(), Some(&7));
    assert!(slot.get_mut_decryption_shares().is_none());
    let mut slot: UserStorage<u8> = UserStorage::DecryptionShare(None);
    assert_eq!(slot.get_cipher_sks(), None);
    *slot.get_mut_decryption_shares().unwrap() = Some(vec![vec![1, 2]]);
    assert!(matches!(slot, UserStorage::DecryptionShare(Some(ref shares)) if shares == &vec![vec![1, 2]]));
}

#[test]
fn dashboard_answers() {
    let users = vec![
        user(0, UserStatus::DecryptionShareSubmitted),
        user(1, UserStatus::StartingCoordsSubmitted),
        user(2, UserStatus::DecryptionShareSubmitted),
    ];
    let dashboard = Dashboard::new(&ServerState::CompletedFhe, users, 4);
    assert_eq!(dashboard.get_names(), vec!["User 0", "User 1", "User 2"]);
    assert_eq!(dashboard.get_round(), 4);
    assert!(!dashboard.is_concluded());
    assert!(!dashboard.is_submit_sks_complete());
    assert!(dashboard.is_setup_game_complete());
    assert!(dashboard.is_fhe_ongoing());
    assert!(dashboard.is_fhe_complete());
    assert!(dashboard.is_decryption_shares_submission_complete(1));
    assert!(!dashboard.is_decryption_shares_submission_complete(0));
    assert!(!dashboard.is_decryption_shares_submission_complete(7));
    assert!(dashboard.is_ready_for_actions(3));
    assert!(!dashboard.is_ready_for_actions(4));
    for (state, concluded, sks, setup, ongoing, complete, actions) in [
        (ServerState::ReadyForJoining, false, false, true, false, false, false),
        (ServerState::ReadyForServerKeyShares, true, false, true, false, false, false),
        (ServerState::ReadyForSetupGame, false, true, false, false, false, false),
        (ServerState::ReadyForActions, false, false, true, false, false, true),
        (ServerState::ReadyForRunning, false, false, true, true, false, false),
        (ServerState::RunningFhe, false, false, true, true, false, false),
    ] {
        let dashboard = Dashboard::new(&state, vec![], 0);
        assert_eq!(dashboard.is_concluded(), concluded);
        assert_eq!(dashboard.is_submit_sks_complete(), sks);
        assert_eq!(dashboard.is_setup_game_complete(), setup);
        assert_eq!(dashboard.is_fhe_ongoing(), ongoing);
        assert_eq!(dashboard.is_fhe_complete(), complete);
        assert_eq!(dashboard.is_ready_for_actions(0), actions);
        assert!(dashboard.is_decryption_shares_submission_complete(0));
    }
}

#[test]
fn server_responses() {
    assert_eq!(TOTAL_USERS, 3);
    let ok = ServerResponse::ok("FHE complete");
    assert_eq!((ok.ok, ok.msg.as_str()), (true, "FHE complete"));
    let err = ServerResponse::err("no");
    assert_eq!((err.ok, err.msg.as_str()), (false, "no"));
    let r = ServerResponse::ok_user(42);
    assert_eq!((r.ok, r.msg.as_str()), (true, "42"));
    let r = ServerResponse::err_unregistered_user(5);
    assert_eq!((r.ok, r.msg.as_str()), (false, "User 5 hasn't registered yet"));
    let r = ServerResponse::err_unregistered_users(2);
    assert_eq!((r.ok, r.msg.as_str()), (false, "Some users haven't registered yet. Want 3  Got 2"));
    let r = ServerResponse::err_run_in_progress();
    assert_eq!((r.ok, r.msg.as_str()), (false, "Fhe computation already running"));
    let r = ServerResponse::ok_run_already_end();
    assert_eq!((r.ok, r.msg.as_str()), (true, "Fhe computation completed"));
    let r = ServerResponse::err_missing_submission(1);
    assert_eq!((r.ok, r.msg.as_str()), (false, "can't find cipher submission from user 1"));
    let r = ServerResponse::err_output_not_ready();
    assert_eq!((r.ok, r.msg.as_str()), (false, "FHE output not ready yet"));
    let r = ServerResponse::err_decryption_share_not_found(2, 10);
    assert_eq!((r.ok, r.msg.as_str()), (false, "Decryption share of 2 from user 10 not found"));
    let out = RegistrationOut { name: "Barry".to_string(), user_id: 0 };
    assert_eq!((out.name.as_str(), out.user_id), ("Barry", 0));
}

#[test]
fn errors_go_out_under_two_headings() {
    let wrong = Error::WrongState {
        expected: ServerState::CompletedFhe,
        actual: ServerState::RunningFhe,
    };
    for (error, status) in [
        (wrong, 500),
        (Error::MissingSubmission { user_id: 1 }, 500),
        (Error::GameNotInitedYet, 500),
        (Error::MalformedCircuit, 500),
        (Error::DecryptionShareNotFound { output_id: 0, user_id: 1 }, 404),
        (Error::UnregisteredUser { user_id: 4 }, 404),
        (Error::OutputNotReady, 404),
    ] {
        let response = ErrorResponse::from_error(error);
        assert_eq!(response.status(), status);
        match response {
            ErrorResponse::ServerError(text) => {
                assert_eq!(status, 500);
                assert_eq!(text, error.to_string());
            }
            ErrorResponse::NotFoundError(text) => {
                assert_eq!(status, 404);
                assert_eq!(text, error.to_string());
            }
        }
    }
    assert_eq!(Error::MalformedCircuit.to_string(), "Malformed circuit");
    assert_eq!(ServerState::ReadyForJoining.ensure(ServerState::ReadyForJoining), Ok(&ServerState::ReadyForJoining));
    assert_eq!(
        ServerState::RunningFhe.ensure(ServerState::ReadyForRunning),
        Err(Error::WrongState {
            expected: ServerState::ReadyForRunning,
            actual: ServerState::RunningFhe
        })
    );
    let mut state = ServerState::ReadyForJoining;
    state.transit(ServerState::ReadyForActions);
    assert_eq!(state, ServerState::ReadyForActions);
}
