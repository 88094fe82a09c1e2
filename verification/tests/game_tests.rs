use pong::game::{paddle_collision, speed_up, toggle_pause_game, Game};
use pong::menu::{apply_menu_action, MenuAction};
use pong::movement::{computer_translation, get_input_direction, move_players, InputSnapshot};
use pong::score::ScoreField;
use pong::scoring::CollisionEvent;
use pong::session::Session;
use pong::settings::{Difficulty, GameSettings, PlayerType, UpdatePlayerCommand};
use pong::states::{GameState, PausedState};

fn no_input() -> InputSnapshot {
    InputSnapshot {
        player1_up: false,
        player1_down: false,
        player2_up: false,
        player2_down: false,
        menu_just_pressed: false,
    }
}

fn find_sensor(session: &Session, side: ScoreField) -> usize {
    for handle in 0..32 {
        if session.sensor_side(handle) == Some(side) {
            return handle;
        }
    }
    panic!("sensor not found");
}

#[test]
fn human_direction_is_level_sensitive() {
    let mut keys = no_input();
    assert_eq!(get_input_direction(&ScoreField::Left, &keys), 0);
    keys.player1_up = true;
    assert_eq!(get_input_direction(&ScoreField::Left, &keys), 1);
    keys.player1_down = true;
    // Both pressed: they cancel out.
    assert_eq!(get_input_direction(&ScoreField::Left, &keys), 0);
    keys.player1_up = false;
    assert_eq!(get_input_direction(&ScoreField::Left, &keys), -1);
    // The left paddle's actions do not drive the right side.
    assert_eq!(get_input_direction(&ScoreField::Right, &keys), 0);
}

#[test]
fn computer_tracks_the_ball_within_its_speed() {
    // Far below the ball: full speed up. Close: the exact offset.
    assert_eq!(computer_translation(100, 0, Difficulty::Easy), 6);
    assert_eq!(computer_translation(-100, 0, Difficulty::Easy), -6);
    assert_eq!(computer_translation(3, 0, Difficulty::Easy), 3);
    assert_eq!(computer_translation(0, 0, Difficulty::Easy), 0);
    assert_eq!(computer_translation(100, 0, Difficulty::Difficult), 12);
    assert_eq!(computer_translation(100, 0, Difficulty::Impossible), 18);
}

#[test]
fn human_paddle_moves_at_fixed_speed_while_held() {
    let mut session = Session::setup_game(&GameSettings::default(), 1200, 600);
    let y0 = session.paddle(ScoreField::Left).y;
    let mut keys = no_input();
    keys.player1_up = true;
    move_players(&mut session, &keys);
    assert_eq!(session.paddle(ScoreField::Left).y, y0 + 6);
    // Holding the key sustains motion every tick.
    move_players(&mut session, &keys);
    assert_eq!(session.paddle(ScoreField::Left).y, y0 + 12);
    keys.player1_up = false;
    move_players(&mut session, &keys);
    assert_eq!(session.paddle(ScoreField::Left).y, y0 + 12);
}

#[test]
fn computer_paddle_tracks_the_ball_vertically() {
    // Player 2 defaults to an easy computer; the ball sits at y 0, the
    // paddle at the field center, so it climbs toward the ball at most 6
    // per tick.
    let mut session = Session::setup_game(&GameSettings::default(), 1200, 600);
    let y0 = session.paddle(ScoreField::Right).y;
    assert_eq!(y0, -50);
    move_players(&mut session, &no_input());
    assert_eq!(session.paddle(ScoreField::Right).y, y0 + 6);
    for _ in 0..20 {
        let before = session.paddle(ScoreField::Right).y;
        move_players(&mut session, &no_input());
        let after = session.paddle(ScoreField::Right).y;
        assert!((after - before).abs() <= Difficulty::Easy.speed());
    }
    // It settles on the ball's height and stays.
    assert_eq!(session.paddle(ScoreField::Right).y, 0);
    move_players(&mut session, &no_input());
    assert_eq!(session.paddle(ScoreField::Right).y, 0);
}

#[test]
fn contact_passes_only_touch_the_ball() {
    let mut session = Session::setup_game(&GameSettings::default(), 1200, 600);
    let ball_handle = session.ball_handle();
    let events = vec![CollisionEvent::Started(ball_handle, 0, false)];
    speed_up(&mut session, &events);
    assert_eq!(session.ball().velocity.speed_sq(), 80000);
    assert_eq!(session.paddle(ScoreField::Left).y, -50);

    // A contact start that names no paddle reflects nothing.
    paddle_collision(&mut session, &events);
    assert!(session.ball().velocity.moving_right());
}

#[test]
fn full_match_flow_first_point_for_player_one() {
    // Session with player 1 human and player 2 an easy computer; the ball
    // is served at the center moving toward player 2's side. When the ball
    // reaches the right boundary sensor, player 1 scores, the ball
    // respawns at the center, and player 2's score is untouched.
    let mut game = Game::new();
    assert_eq!(game.machine.state(), GameState::Main);

    let quit = apply_menu_action(&mut game, MenuAction::ChangeState(GameState::StartGame));
    assert!(!quit);
    game.frame_boundary(Some((1200, 600)));
    assert_eq!(game.machine.state(), GameState::StartGame);
    assert!(game.session.is_none());

    apply_menu_action(&mut game, MenuAction::ChangeState(GameState::Playing));
    game.frame_boundary(Some((1200, 600)));
    assert_eq!(game.machine.state(), GameState::Playing);
    assert_eq!(game.machine.paused(), PausedState::Unpaused);
    assert!(game.session.is_some());

    {
        let session = game.session.as_ref().unwrap();
        let ball = session.ball();
        assert_eq!((ball.x, ball.y), (0, 0));
        assert!(ball.velocity.moving_right());
    }

    // A quiet tick: the computer paddle tracks the ball's height at no more
    // than its difficulty's speed.
    let y_before = game.session.as_ref().unwrap().paddle(ScoreField::Right).y;
    game.fixed_update(&no_input(), &vec![]);
    let y_after = game.session.as_ref().unwrap().paddle(ScoreField::Right).y;
    assert!((y_after - y_before).abs() <= Difficulty::Easy.speed());

    // The ball exits through the right boundary sensor.
    let (ball_handle, right_sensor) = {
        let session = game.session.as_ref().unwrap();
        (session.ball_handle(), find_sensor(session, ScoreField::Right))
    };
    let events = vec![CollisionEvent::Started(ball_handle, right_sensor, true)];
    game.fixed_update(&no_input(), &events);

    assert_eq!(game.score.player1(), 1);
    assert_eq!(game.score.player2(), 0);
    let ball = game.session.as_ref().unwrap().ball();
    assert_eq!((ball.x, ball.y), (0, 0));
    assert_eq!(ball.velocity.speed_sq(), 50000);
    assert_eq!(game.machine.state(), GameState::Playing);
}

#[test]
fn fifth_point_ends_the_match_and_tears_the_session_down() {
    let mut game = Game::new();
    apply_menu_action(&mut game, MenuAction::ChangeState(GameState::Playing));
    game.frame_boundary(Some((1200, 600)));

    let right_sensor = find_sensor(game.session.as_ref().unwrap(), ScoreField::Right);
    for point in 0..5 {
        // The respawned ball gets a fresh handle after every point.
        let ball = game.session.as_ref().unwrap().ball_handle();
        let events = vec![CollisionEvent::Started(ball, right_sensor, true)];
        game.fixed_update(&no_input(), &events);
        assert_eq!(game.score.player1(), point + 1);
    }
    assert!(game.score.is_game_end());
    assert_eq!(game.score.get_winner(), "Player 1");
    // Still Playing until the boundary; then the end screen, session gone.
    assert_eq!(game.machine.state(), GameState::Playing);
    game.frame_boundary(Some((1200, 600)));
    assert_eq!(game.machine.state(), GameState::EndGame);
    assert!(game.session.is_none());
}

#[test]
fn paused_gameplay_changes_nothing() {
    let mut game = Game::new();
    apply_menu_action(&mut game, MenuAction::ChangeState(GameState::Playing));
    game.frame_boundary(Some((1200, 600)));

    let mut menu_pressed = no_input();
    menu_pressed.menu_just_pressed = true;
    toggle_pause_game(&mut game.machine, &menu_pressed);
    assert_eq!(game.machine.paused(), PausedState::Paused);

    let (ball_handle, right_sensor) = {
        let session = game.session.as_ref().unwrap();
        (session.ball_handle(), find_sensor(session, ScoreField::Right))
    };
    let events = vec![CollisionEvent::Started(ball_handle, right_sensor, true)];
    game.fixed_update(&no_input(), &events);
    // The gameplay gate was closed: no point, no motion.
    assert_eq!(game.score.player1(), 0);
    assert_eq!(game.session.as_ref().unwrap().paddle(ScoreField::Right).y, -50);

    toggle_pause_game(&mut game.machine, &menu_pressed);
    assert_eq!(game.machine.paused(), PausedState::Unpaused);
    game.fixed_update(&no_input(), &events);
    assert_eq!(game.score.player1(), 1);
}

#[test]
fn setup_waits_for_a_viewport() {
    let mut game = Game::new();
    apply_menu_action(&mut game, MenuAction::ChangeState(GameState::Playing));
    // No viewport yet: entering Playing defers the session setup.
    game.frame_boundary(None);
    assert_eq!(game.machine.state(), GameState::Playing);
    assert!(game.session.is_none());
    // The next boundary with a viewport builds it.
    game.frame_boundary(Some((1200, 600)));
    assert!(game.session.is_some());
    assert_eq!(game.score.player1(), 0);
}

#[test]
fn restart_builds_a_fresh_session_and_score() {
    let mut game = Game::new();
    apply_menu_action(&mut game, MenuAction::ChangeState(GameState::Playing));
    game.frame_boundary(Some((1200, 600)));
    let (ball_handle, right_sensor) = {
        let session = game.session.as_ref().unwrap();
        (session.ball_handle(), find_sensor(session, ScoreField::Right))
    };
    let events = vec![CollisionEvent::Started(ball_handle, right_sensor, true)];
    game.fixed_update(&no_input(), &events);
    assert_eq!(game.score.player1(), 1);

    // Leave for the main menu: the session is torn down unconditionally.
    apply_menu_action(&mut game, MenuAction::ChangeState(GameState::Main));
    game.frame_boundary(Some((1200, 600)));
    assert!(game.session.is_none());
    // The score of the finished match survives until the next setup.
    assert_eq!(game.score.player1(), 1);

    apply_menu_action(&mut game, MenuAction::ChangeState(GameState::Playing));
    game.frame_boundary(Some((1200, 600)));
    assert_eq!(game.score.player1(), 0);
    assert!(game.session.is_some());
}

#[test]
fn menu_actions_drive_settings_and_remapping() {
    let mut game = Game::new();
    let command = UpdatePlayerCommand::new(2, PlayerType::Human);
    apply_menu_action(&mut game, MenuAction::UpdatePlayer(command));
    assert_eq!(*game.settings.get_player2(), PlayerType::Human);
    assert_eq!(*game.settings.get_player1(), PlayerType::Human);

    apply_menu_action(
        &mut game,
        MenuAction::StartRemapping(pong::controls::GameAction::Player2Up),
    );
    // In the controls menu, the next pressed key rebinds the action.
    apply_menu_action(&mut game, MenuAction::ChangeState(GameState::Controls));
    game.frame_boundary(None);
    game.update_tick(&no_input(), &vec![64]);
    assert_eq!(game.controls.get(pong::controls::GameAction::Player2Up), Some(64));

    assert!(apply_menu_action(&mut game, MenuAction::QuitGame));
}

#[test]
fn resume_action_leaves_the_pause_overlay() {
    let mut game = Game::new();
    apply_menu_action(&mut game, MenuAction::ChangeState(GameState::Playing));
    game.frame_boundary(Some((1200, 600)));
    let mut menu_pressed = no_input();
    menu_pressed.menu_just_pressed = true;
    game.update_tick(&menu_pressed, &vec![]);
    assert_eq!(game.machine.paused(), PausedState::Paused);
    apply_menu_action(&mut game, MenuAction::ResumeGame);
    assert_eq!(game.machine.paused(), PausedState::Unpaused);
}
