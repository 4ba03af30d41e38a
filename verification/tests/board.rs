use chickens::{
    coords_to_binary, u8_to_binary, Direction, GameStateLocalView, UserAction, BOARD_DIM,
    BOARD_SIZE,
};

#[test]
fn board_has_sixteen_cells() {
    assert_eq!(BOARD_DIM, 4);
    assert_eq!(BOARD_SIZE, 16);
}

#[test]
fn bytes_in_binary() {
    assert_eq!(u8_to_binary::<8>(0), [false; 8]);
    assert_eq!(u8_to_binary::<8>(1), [true, false, false, false, false, false, false, false]);
    assert_eq!(u8_to_binary::<8>(0b1010_0110), [false, true, true, false, false, true, false, true]);
    assert_eq!(u8_to_binary::<8>(255), [true; 8]);
    assert_eq!(u8_to_binary::<3>(5), [true, false, true]);
    assert_eq!(u8_to_binary::<0>(0), []);
}

#[test]
fn coordinates_in_binary() {
    let word = coords_to_binary::<16>(3, 2);
    let mut expected = [false; 16];
    expected[0] = true;
    expected[1] = true;
    expected[9] = true;
    assert_eq!(word, expected);
    assert_eq!(coords_to_binary::<16>(0, 0), [false; 16]);
    let full = coords_to_binary::<16>(255, 255);
    assert_eq!(full, [true; 16]);
    // in a word of eight bits each half shows the four low bits of its coordinate
    assert_eq!(
        coords_to_binary::<8>(0b0101, 0b1001_0110),
        [true, false, true, false, false, true, true, false]
    );
}

#[test]
fn directions_have_codes() {
    assert_eq!(Direction::Up.code(), 0);
    assert_eq!(Direction::Down.code(), 1);
    assert_eq!(Direction::Left.code(), 2);
    assert_eq!(Direction::Right.code(), 3);
}

#[test]
fn moves_wrap_around_the_board() {
    let mut view = GameStateLocalView::new(0, 0, 2);
    assert_eq!(view.user_id(), 2);
    assert_eq!(view.coord(), (0, 0));
    view.move_player(Direction::Up);
    assert_eq!(view.coord(), (3, 0));
    view.move_player(Direction::Left);
    assert_eq!(view.coord(), (3, 3));
    view.move_player(Direction::Down);
    assert_eq!(view.coord(), (0, 3));
    view.move_player(Direction::Right);
    assert_eq!(view.coord(), (0, 0));
    view.move_player(Direction::Down);
    view.move_player(Direction::Right);
    assert_eq!(view.coord(), (1, 1));
}

#[test]
fn eggs_are_laid_and_picked_up_where_the_player_stands() {
    let mut view = GameStateLocalView::new(1, 2, 0);
    assert!(!*view.get_egg());
    view.lay();
    assert!(*view.get_egg());
    view.move_player(Direction::Down);
    assert!(!*view.get_egg());
    *view.get_egg() = true;
    view.move_player(Direction::Up);
    view.pickup();
    assert!(!*view.get_egg());
    view.move_player(Direction::Down);
    assert!(*view.get_egg());
}

#[test]
fn local_rows_show_the_player_and_its_eggs() {
    let mut view = GameStateLocalView::new(1, 2, 3);
    view.lay();
    view.move_player(Direction::Right);
    view.move_player(Direction::Up);
    view.lay();
    view.move_player(Direction::Left);
    view.move_player(Direction::Down);
    view.pickup();
    let rows = view.rows();
    assert_eq!(rows.len(), 4);
    for (r, row) in rows.iter().enumerate() {
        assert_eq!(row.len(), 4);
        for (c, cell) in row.iter().enumerate() {
            let expected = match (r, c) {
                (1, 2) => "(\u{1F413}3)",
                (0, 3) => "_\u{1F95A}",
                _ => "_",
            };
            assert_eq!(cell, expected);
        }
    }
    view.lay();
    assert_eq!(view.rows()[1][2], "(\u{1F413}3)\u{1F95A}");
}

#[test]
fn global_rows_show_the_own_cell_only() {
    let view = GameStateLocalView::new(2, 1, 0);
    let rows = view.rows_with_output(&[true, false, true, false, true]);
    for (r, row) in rows.iter().enumerate() {
        for (c, cell) in row.iter().enumerate() {
            if (r, c) == (2, 1) {
                assert_eq!(cell, "(\u{1F413}0)(\u{1F413}2)\u{1F95A}");
            } else {
                assert_eq!(cell, "\u{1F32B}\u{FE0F}");
            }
        }
    }
    let empty = view.rows_with_output(&[false; 5]);
    assert_eq!(empty[2][1], "");
}

#[test]
fn actions_carry_their_words() {
    match UserAction::init_game(&[true, false, true]) {
        UserAction::InitGame { initial_eggs } => assert_eq!(initial_eggs, vec![true, false, true]),
        _ => panic!("an init action"),
    }
    match UserAction::set_starting_coord(&(1, 3)) {
        UserAction::SetStartingCoord { starting_coord } => {
            assert_eq!(starting_coord, coords_to_binary::<16>(1, 3).to_vec())
        }
        _ => panic!("a coordinate action"),
    }
    match UserAction::move_player(Direction::Right) {
        UserAction::MovePlayer { direction } => {
            assert_eq!(direction, vec![true, true, false, false, false, false, false, false])
        }
        _ => panic!("a move"),
    }
    let lay: UserAction<Vec<bool>> = UserAction::LayEgg;
    assert_eq!(lay.to_string(), "LayEgg");
    assert!(lay.is_queueable() && lay.is_move() && !lay.is_setup());
    let cell: UserAction<Vec<bool>> = UserAction::GetCell;
    assert!(cell.is_queueable() && !cell.is_move());
    let done: UserAction<Vec<bool>> = UserAction::Done;
    assert!(!done.is_queueable() && !done.is_setup());
    let mapped = UserAction::move_player(Direction::Down).map(|word| word.len());
    assert!(matches!(mapped, UserAction::MovePlayer { direction: 8 }));
    assert!(matches!(done.map(|word| word.len()), UserAction::Done));
    assert_eq!(UserAction::set_starting_coord(&(0, 0)).to_string(), "SetStartingCoord");
}

/// Four players start on the same cell; the first moves up, the second
/// down, the third lays an egg, the fourth picks one up. Each of them sees
/// in its own view what it did itself and nothing of the others.
#[test]
fn four_players_act_on_their_own_views() {
    let mut views: Vec<GameStateLocalView> =
        (0..4).map(|user_id| GameStateLocalView::new(0, 0, user_id)).collect();
    views[0].move_player(Direction::Up);
    views[1].move_player(Direction::Down);
    views[2].lay();
    views[3].pickup();
    assert_eq!(views[0].coord(), (3, 0));
    assert_eq!(views[1].coord(), (1, 0));
    assert_eq!(views[2].coord(), (0, 0));
    assert_eq!(views[3].coord(), (0, 0));
    let eggs: Vec<bool> = views.iter_mut().map(|view| *view.get_egg()).collect();
    assert_eq!(eggs, vec![false, false, true, false]);
    for (user_id, view) in views.iter().enumerate() {
        let rows = view.rows();
        let (x, y) = view.coord();
        for (r, row) in rows.iter().enumerate() {
            for (c, cell) in row.iter().enumerate() {
                let mut expected = if (r, c) == (x as usize, y as usize) {
                    format!("(\u{1F413}{user_id})")
                } else {
                    "_".to_string()
                };
                if user_id == 2 && (r, c) == (0, 0) {
                    expected.push('\u{1F95A}');
                }
                assert_eq!(cell, &expected);
            }
        }
        // what the server opens for a player speaks of its own cell only
        let mut output = vec![false; 5];
        output[user_id] = true;
        output[4] = user_id == 2;
        let seen = view.rows_with_output(&output);
        let fog = seen.iter().flatten().filter(|cell| *cell == "\u{1F32B}\u{FE0F}").count();
        assert_eq!(fog, 15);
        let mut own = format!("(\u{1F413}{user_id})");
        if user_id == 2 {
            own.push('\u{1F95A}');
        }
        assert_eq!(seen[x as usize][y as usize], own);
    }
}
